//! Validated verse addresses, their total order, and the canonical
//! reading-order walk between two addresses.
//!
//! A [`VerseIndex`] names one verse of the canon: a book, a chapter of
//! that book, and a verse of that chapter, all checked against the
//! versification table. Values exist only through the validating
//! factories, so every `VerseIndex` in circulation addresses a verse the
//! table has. The total order compares book ordinal first, then chapter,
//! then verse; [`verse_range`] walks that order one verse at a time, which
//! is what lets a passage cross chapter and book boundaries.

use vstd::prelude::*;
use crate::bible::{
    Book, spec_book_order, spec_book_from_order, lemma_book_order_roundtrip,
    lemma_book_order_injective,
};
use crate::error::{DataError, ErrorKind};
use crate::versification::{
    spec_chapter_count, spec_verse_count, spec_chapters, spec_verses, verse_count, chapter_count,
    lemma_versification_positive, lemma_listed_iff_in_range,
};

verus! {

/// Whether `(book, chapter, verse)` names a verse that the versification
/// table has.
pub open spec fn spec_valid_index(book: Book, chapter: u8, verse: u8) -> bool {
    &&& 1 <= chapter <= spec_chapter_count(book)
    &&& 1 <= verse <= spec_verse_count(book, chapter as int)
}

/// A validated address of a single verse.
#[derive(Clone, Copy, Debug, PartialEq, Eq, Structural)]
pub struct VerseIndex {
    book: Book,
    chapter: u8,
    verse: u8,
}

impl VerseIndex {
    /// The book this address points into.
    pub closed spec fn spec_book(self) -> Book {
        self.book
    }

    /// The chapter number within the book; counts from 1.
    pub closed spec fn spec_chapter(self) -> u8 {
        self.chapter
    }

    /// The verse number within the chapter; counts from 1.
    pub closed spec fn spec_verse(self) -> u8 {
        self.verse
    }

    /// Every value of this type addresses a verse the table has.
    pub open spec fn wf(self) -> bool {
        spec_valid_index(self.spec_book(), self.spec_chapter(), self.spec_verse())
    }

    /// Two addresses with equal book, chapter and verse are equal.
    pub proof fn lemma_eq_by_parts(a: VerseIndex, b: VerseIndex)
        requires
            a.spec_book() == b.spec_book(),
            a.spec_chapter() == b.spec_chapter(),
            a.spec_verse() == b.spec_verse(),
        ensures
            a == b,
    {
    }

    /// Builds the address `(book, chapter, verse)`, succeeding exactly
    /// when the table has that verse: the chapter must be one of the
    /// book's chapters and the verse one of that chapter's verses.
    pub fn try_new(book: Book, chapter: u8, verse: u8) -> (r: Option<VerseIndex>)
        ensures
            r is Some <==> spec_valid_index(book, chapter, verse),
            r matches Some(v) ==> {
                &&& v.spec_book() == book
                &&& v.spec_chapter() == chapter
                &&& v.spec_verse() == verse
                &&& v.wf()
            },
    {
        match verse_count(book, chapter) {
            Some(m) => {
                if 1 <= verse && verse <= m {
                    Some(VerseIndex { book, chapter, verse })
                } else {
                    None
                }
            },
            None => None,
        }
    }

    /// Rebuilds an address from the three numeric columns it was stored
    /// as. A stored combination the table does not have is data
    /// corruption, reported as an integrity error, never coerced.
    pub fn try_from_numbers(book_order: i64, chapter: i64, verse: i64) -> (r: Result<
        VerseIndex,
        DataError,
    >)
        ensures
            r is Ok <==> {
                &&& 0 <= book_order <= 65
                &&& 1 <= chapter <= 255
                &&& 1 <= verse <= 255
                &&& spec_valid_index(
                    spec_book_from_order(book_order as int),
                    chapter as u8,
                    verse as u8,
                )
            },
            r matches Ok(v) ==> {
                &&& spec_book_order(v.spec_book()) == book_order
                &&& v.spec_chapter() == chapter
                &&& v.spec_verse() == verse
                &&& v.wf()
            },
            r matches Err(e) ==> e.spec_kind() == ErrorKind::Integrity,
    {
        if 0 <= book_order && book_order <= 65 && 1 <= chapter && chapter <= 255 && 1 <= verse
            && verse <= 255 {
            let book = match Book::try_from_order(book_order as u8) {
                Some(b) => b,
                None => {
                    proof {
                        assert(false);
                    }
                    Book::Genesis
                },
            };
            proof {
                lemma_book_from_order_ord(book_order as int);
            }
            match Self::try_new(book, chapter as u8, verse as u8) {
                Some(v) => Ok(v),
                None => Err(
                    DataError::new(ErrorKind::Integrity, "Nevalidní index verše v databázi"),
                ),
            }
        } else {
            Err(DataError::new(ErrorKind::Integrity, "Nevalidní index verše v databázi"))
        }
    }

    /// The three numeric columns this address is stored as: book ordinal,
    /// chapter, verse.
    pub fn destructure(&self) -> (r: (u8, u8, u8))
        ensures
            r.0 as int == spec_book_order(self.spec_book()),
            r.1 == self.spec_chapter(),
            r.2 == self.spec_verse(),
    {
        (self.book.order(), self.chapter, self.verse)
    }

    /// The book this address points into.
    pub fn book(&self) -> (r: Book)
        ensures
            r == self.spec_book(),
    {
        self.book
    }

    /// The chapter number within the book.
    pub fn chapter(&self) -> (r: u8)
        ensures
            r == self.spec_chapter(),
    {
        self.chapter
    }

    /// The verse number within the chapter.
    pub fn verse(&self) -> (r: u8)
        ensures
            r == self.spec_verse(),
    {
        self.verse
    }

    /// Strict order: book ordinal first, then chapter, then verse.
    pub fn lt(&self, other: &VerseIndex) -> (r: bool)
        ensures
            r == spec_lt(*self, *other),
    {
        let so = self.book.order();
        let oo = other.book.order();
        if so != oo {
            proof {
                if so < oo {
                } else {
                    lemma_book_order_injective(self.book, other.book);
                }
            }
            so < oo
        } else {
            proof {
                lemma_book_order_injective(self.book, other.book);
            }
            if self.chapter != other.chapter {
                self.chapter < other.chapter
            } else {
                self.verse < other.verse
            }
        }
    }

    /// Non-strict order: `self` comes no later than `other` in reading
    /// order.
    pub fn le(&self, other: &VerseIndex) -> (r: bool)
        ensures
            r == spec_le(*self, *other),
    {
        self.lt(other) || *self == *other
    }
}

/// `a` strictly precedes `b` in canonical reading order: its book comes
/// earlier, or the book is the same and its chapter comes earlier, or
/// book and chapter are the same and its verse number is smaller.
pub open spec fn spec_lt(a: VerseIndex, b: VerseIndex) -> bool {
    ||| spec_book_order(a.spec_book()) < spec_book_order(b.spec_book())
    ||| (a.spec_book() == b.spec_book() && a.spec_chapter() < b.spec_chapter())
    ||| (a.spec_book() == b.spec_book() && a.spec_chapter() == b.spec_chapter() && a.spec_verse()
        < b.spec_verse())
}

/// `a` comes no later than `b` in canonical reading order.
pub open spec fn spec_le(a: VerseIndex, b: VerseIndex) -> bool {
    spec_lt(a, b) || a == b
}

/// If the book of `x` has a smaller ordinal than the book of `y`, then
/// `x` precedes `y`, whatever the chapters and verses are.
pub proof fn lemma_order_respects_book(x: VerseIndex, y: VerseIndex)
    requires
        spec_book_order(x.spec_book()) < spec_book_order(y.spec_book()),
    ensures
        spec_lt(x, y),
{
}

/// The reading order is a total order: exactly one of `a < b`, `a == b`,
/// `b < a` holds, and `<` is transitive.
pub proof fn lemma_order_total(a: VerseIndex, b: VerseIndex)
    ensures
        spec_lt(a, b) || spec_lt(b, a) || a == b,
        !(spec_lt(a, b) && spec_lt(b, a)),
        !(spec_lt(a, b) && a == b),
{
    lemma_book_order_injective(a.spec_book(), b.spec_book());
    if !spec_lt(a, b) && !spec_lt(b, a) {
        VerseIndex::lemma_eq_by_parts(a, b);
    }
}

/// Transitivity of the strict reading order.
pub proof fn lemma_order_transitive(a: VerseIndex, b: VerseIndex, c: VerseIndex)
    requires
        spec_lt(a, b),
        spec_lt(b, c),
    ensures
        spec_lt(a, c),
{
    lemma_book_order_injective(a.spec_book(), b.spec_book());
    lemma_book_order_injective(b.spec_book(), c.spec_book());
    lemma_book_order_injective(a.spec_book(), c.spec_book());
}

/// `try_new(b, c, v)` succeeds exactly when `c` is listed among the
/// chapters of `b` and `v` is listed among the verses of chapter `c`:
/// validity of an address is membership in the table's ranges.
pub proof fn lemma_try_new_iff_listed(b: Book, c: u8, v: u8)
    ensures
        spec_valid_index(b, c, v) <==> (spec_chapters(b).contains(c) && spec_verses(
            b,
            c as int,
        ).contains(v)),
{
    lemma_listed_iff_in_range(b, c, v);
}

/// The ordinal of `spec_book_from_order(o)` is `o` itself, for ordinals
/// the canon has.
pub proof fn lemma_book_from_order_ord(o: int)
    requires
        0 <= o <= 65,
    ensures
        spec_book_order(spec_book_from_order(o)) == o,
{
}

/// The address straight after `(b, c, v)` in reading order: the next
/// verse of the chapter, else the first verse of the next chapter, else
/// the first verse of the next book, and `None` after the last verse of
/// the last book.
pub open spec fn spec_successor(b: Book, c: u8, v: u8) -> Option<(Book, u8, u8)> {
    if (v as nat) < spec_verse_count(b, c as int) {
        Some((b, c, (v + 1) as u8))
    } else if (c as nat) < spec_chapter_count(b) {
        Some((b, (c + 1) as u8, 1u8))
    } else if spec_book_order(b) < 65 {
        Some((spec_book_from_order(spec_book_order(b) + 1), 1u8, 1u8))
    } else {
        None
    }
}

/// The triple of components of an address.
pub open spec fn spec_triple(x: VerseIndex) -> (Book, u8, u8) {
    (x.spec_book(), x.spec_chapter(), x.spec_verse())
}

/// `w` is the address straight after `v` in reading order.
pub open spec fn spec_is_successor(v: VerseIndex, w: VerseIndex) -> bool {
    spec_successor(v.spec_book(), v.spec_chapter(), v.spec_verse()) == Some(spec_triple(w))
}

impl VerseIndex {
    /// The address straight after this one in reading order, or `None`
    /// after the last verse of the last book.
    pub fn successor(&self) -> (r: Option<VerseIndex>)
        requires
            self.wf(),
        ensures
            r matches Some(w) ==> spec_is_successor(*self, w) && w.wf(),
            r is None ==> spec_successor(self.spec_book(), self.spec_chapter(), self.spec_verse())
                is None,
    {
        proof {
            lemma_versification_positive(self.book);
        }
        let m = match verse_count(self.book, self.chapter) {
            Some(m) => m,
            None => {
                proof {
                    assert(false);
                }
                0
            },
        };
        if self.verse < m {
            Some(VerseIndex { book: self.book, chapter: self.chapter, verse: self.verse + 1 })
        } else if self.chapter < chapter_count(self.book) {
            Some(VerseIndex { book: self.book, chapter: self.chapter + 1, verse: 1 })
        } else {
            let o = self.book.order();
            if o < 65 {
                let next = match Book::try_from_order(o + 1) {
                    Some(b) => b,
                    None => {
                        proof {
                            assert(false);
                        }
                        Book::Genesis
                    },
                };
                proof {
                    lemma_versification_positive(next);
                }
                Some(VerseIndex { book: next, chapter: 1, verse: 1 })
            } else {
                None
            }
        }
    }
}

/// Between two ordered addresses the successor exists and stays in
/// range: if `cur` precedes `to`, then `cur` has a successor, the
/// successor still comes no later than `to`, and `cur` precedes it.
pub proof fn lemma_successor_between(cur: VerseIndex, w: VerseIndex, to: VerseIndex)
    requires
        cur.wf(),
        to.wf(),
        w.wf(),
        spec_lt(cur, to),
        spec_is_successor(cur, w),
    ensures
        spec_lt(cur, w),
        spec_le(w, to),
{
    lemma_versification_positive(cur.spec_book());
    lemma_versification_positive(to.spec_book());
    lemma_book_order_injective(cur.spec_book(), to.spec_book());
    lemma_book_order_injective(w.spec_book(), to.spec_book());
    lemma_book_order_injective(cur.spec_book(), w.spec_book());
    let b = cur.spec_book();
    let c = cur.spec_chapter();
    let v = cur.spec_verse();
    if (v as nat) < spec_verse_count(b, c as int) {
        // same book and chapter, next verse
        if !spec_le(w, to) {
            lemma_order_total(w, to);
            VerseIndex::lemma_eq_by_parts(w, to);
        }
    } else if (c as nat) < spec_chapter_count(b) {
        // same book, first verse of the next chapter
        if !spec_le(w, to) {
            lemma_order_total(w, to);
        }
    } else {
        // first verse of the next book
        lemma_book_from_order_ord(spec_book_order(b) + 1);
        if !spec_le(w, to) {
            lemma_order_total(w, to);
        }
    }
}

/// When `cur` still precedes `to`, the successor of `cur` exists.
pub proof fn lemma_successor_exists(cur: VerseIndex, to: VerseIndex)
    requires
        cur.wf(),
        to.wf(),
        spec_lt(cur, to),
    ensures
        spec_successor(cur.spec_book(), cur.spec_chapter(), cur.spec_verse()) is Some,
{
    lemma_versification_positive(cur.spec_book());
    lemma_versification_positive(to.spec_book());
    lemma_book_order_injective(cur.spec_book(), to.spec_book());
    lemma_book_order_roundtrip(to.spec_book());
}

/// `s` walks the canonical reading order one verse at a time from `from`
/// to `to`: it starts at `from`, ends at `to`, and every element is
/// followed by exactly the next address of the canon. There is only one
/// such walk for a given pair of endpoints.
pub open spec fn is_verse_chain(s: Seq<VerseIndex>, from: VerseIndex, to: VerseIndex) -> bool {
    &&& s.len() >= 1
    &&& s[0] == from
    &&& s[s.len() - 1] == to
    &&& forall|i: int| 0 <= i < s.len() - 1 ==> spec_is_successor(s[i], #[trigger] s[i + 1])
}

/// The verses from `from` to `to` inclusive, in canonical reading order,
/// as the unique successor walk between the endpoints. This is the range
/// engine: it crosses chapter and book boundaries by construction, with
/// no per-book iteration visible to callers.
pub fn verse_range(from: VerseIndex, to: VerseIndex) -> (r: Vec<VerseIndex>)
    requires
        from.wf(),
        to.wf(),
        spec_le(from, to),
    ensures
        is_verse_chain(r@, from, to),
        forall|i: int| 0 <= i < r@.len() ==> (#[trigger] r@[i]).wf(),
        forall|i: int|
            0 <= i < r@.len() ==> spec_le(from, #[trigger] r@[i]) && spec_le(r@[i], to),
        forall|i: int| 0 <= i < r@.len() - 1 ==> spec_lt(r@[i], #[trigger] r@[i + 1]),
{
    let mut r: Vec<VerseIndex> = Vec::new();
    let mut cur = from;
    while !(cur == to)
        invariant
            from.wf(),
            to.wf(),
            cur.wf(),
            spec_le(from, cur),
            spec_le(cur, to),
            r@.push(cur).len() >= 1,
            r@.push(cur)[0] == from,
            forall|i: int|
                0 <= i < r@.push(cur).len() - 1 ==> spec_is_successor(
                    r@.push(cur)[i],
                    #[trigger] r@.push(cur)[i + 1],
                ),
            forall|i: int| 0 <= i < r@.len() ==> (#[trigger] r@[i]).wf(),
            forall|i: int|
                0 <= i < r@.len() ==> spec_le(from, #[trigger] r@[i]) && spec_lt(r@[i], cur),
            forall|i: int|
                0 <= i < r@.push(cur).len() - 1 ==> spec_lt(
                    r@.push(cur)[i],
                    #[trigger] r@.push(cur)[i + 1],
                ),
        decreases
            spec_book_order(to.spec_book()) - spec_book_order(cur.spec_book()),
            spec_chapter_count(cur.spec_book()) - cur.spec_chapter(),
            spec_verse_count(cur.spec_book(), cur.spec_chapter() as int) - cur.spec_verse(),
    {
        proof {
            lemma_order_total(cur, to);
            lemma_successor_exists(cur, to);
        }
        let w = match cur.successor() {
            Some(w) => w,
            None => {
                proof {
                    assert(false);
                }
                cur
            },
        };
        proof {
            lemma_successor_between(cur, w, to);
            lemma_book_order_injective(cur.spec_book(), w.spec_book());
            assert forall|i: int|
                0 <= i < r@.push(cur).push(w).len() - 1 implies spec_is_successor(
                r@.push(cur).push(w)[i],
                #[trigger] r@.push(cur).push(w)[i + 1],
            ) by {
                if i < r@.len() {
                    assert(spec_is_successor(r@.push(cur)[i], r@.push(cur)[i + 1]));
                    assert(r@.push(cur).push(w)[i] == r@.push(cur)[i]);
                    assert(r@.push(cur).push(w)[i + 1] == r@.push(cur)[i + 1]);
                }
            }
            assert forall|i: int|
                0 <= i < r@.push(cur).push(w).len() - 1 implies spec_lt(
                r@.push(cur).push(w)[i],
                #[trigger] r@.push(cur).push(w)[i + 1],
            ) by {
                if i < r@.len() {
                    assert(spec_lt(r@.push(cur)[i], r@.push(cur)[i + 1]));
                    assert(r@.push(cur).push(w)[i] == r@.push(cur)[i]);
                    assert(r@.push(cur).push(w)[i + 1] == r@.push(cur)[i + 1]);
                }
            }
            assert forall|i: int| 0 <= i < r@.push(cur).len() implies spec_le(
                from,
                #[trigger] r@.push(cur)[i],
            ) && spec_lt(r@.push(cur)[i], w) by {
                if i < r@.len() {
                    lemma_order_transitive(r@[i], cur, w);
                }
            }
        }
        r.push(cur);
        cur = w;
    }
    r.push(cur);
    proof {
        assert(r@ == r@.drop_last().push(cur));
    }
    r
}

} // verus!
