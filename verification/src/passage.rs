//! Passages: materialized, read-only runs of verses between two
//! addresses, possibly spanning chapter and book boundaries.
//!
//! Storage hands back rows ordered by the translation-scoped reading
//! order (`verse_order`). The library does not trust them:
//! [`Passage::assemble`] checks that the rows walk the canon one verse at
//! a time from `from` to `to` — the unique successor chain between the
//! endpoints — and rejects a reversed range before anything is read, an
//! empty result, and any gap, naming the first missing address.

use vstd::prelude::*;
use vstd::string::StringExecFns;
use crate::bible::{Book, spec_book_order, spec_book_from_order};
use crate::error::{DataError, ErrorKind};
use crate::text::u8_to_string;
use crate::verse_index::{
    VerseIndex, spec_le, spec_successor, spec_triple, spec_valid_index, lemma_order_total,
    lemma_successor_exists, lemma_successor_between,
};

verus! {

/// One verse row as storage returns it: the three address columns and
/// the text.
#[derive(Debug)]
pub struct VerseRow {
    /// The stored book ordinal, 0 through 65.
    pub book_order: i64,
    /// The stored chapter number, counting from 1.
    pub chapter: i64,
    /// The stored verse number, counting from 1.
    pub number: i64,
    /// The verse text.
    pub content: String,
}

/// The address triple a row claims, once its columns fit their ranges.
pub open spec fn spec_row_triple(r: VerseRow) -> (Book, u8, u8) {
    (spec_book_from_order(r.book_order as int), r.chapter as u8, r.number as u8)
}

/// The row's address columns fit their ranges and name a verse the
/// versification table has.
pub open spec fn spec_row_valid(r: VerseRow) -> bool {
    &&& 0 <= r.book_order <= 65
    &&& 1 <= r.chapter <= 255
    &&& 1 <= r.number <= 255
    &&& spec_valid_index(spec_row_triple(r).0, spec_row_triple(r).1, spec_row_triple(r).2)
}

/// The row sits at address `v`.
pub open spec fn spec_row_at(r: VerseRow, v: VerseIndex) -> bool {
    &&& r.book_order == spec_book_order(v.spec_book())
    &&& r.chapter == v.spec_chapter() as int
    &&& r.number == v.spec_verse() as int
}

/// The rows walk the canonical reading order one verse at a time from
/// `from` to `to`: every row names a verse the table has, the first row
/// sits at `from`, the last at `to`, and each row is followed by exactly
/// the next address of the canon. Any missing verse, stray row or
/// reordering breaks one of these clauses.
pub open spec fn spec_rows_form_range(rows: Seq<VerseRow>, from: VerseIndex, to: VerseIndex) -> bool {
    &&& rows.len() >= 1
    &&& forall|i: int| 0 <= i < rows.len() ==> spec_row_valid(#[trigger] rows[i])
    &&& spec_row_at(rows[0], from)
    &&& spec_row_at(rows[rows.len() - 1], to)
    &&& forall|i: int|
        0 <= i < rows.len() - 1 ==> spec_successor(
            spec_row_triple(rows[i]).0,
            spec_row_triple(rows[i]).1,
            spec_row_triple(rows[i]).2,
        ) == Some(spec_row_triple(#[trigger] rows[i + 1]))
}

/// A materialized, read-only passage: the two endpoints, the translation
/// it was read from, and the ordered verses as `(number, text)` pairs.
#[derive(Debug)]
pub struct Passage {
    from: VerseIndex,
    to: VerseIndex,
    translation_id: i64,
    translation_name: String,
    verses: Vec<(u8, String)>,
}

impl Passage {
    /// The start address, as contracts see it.
    pub closed spec fn spec_from(&self) -> VerseIndex {
        self.from
    }

    /// The end address, as contracts see it.
    pub closed spec fn spec_to(&self) -> VerseIndex {
        self.to
    }

    /// The translation id, as contracts see it.
    pub closed spec fn spec_translation_id(&self) -> i64 {
        self.translation_id
    }

    /// The translation name, as contracts see it.
    pub closed spec fn spec_translation_name(&self) -> Seq<char> {
        self.translation_name@
    }

    /// The verses, as contracts see them.
    pub closed spec fn spec_verses(&self) -> Seq<(u8, String)> {
        self.verses@
    }

    /// A reversed range is rejected before anything is read: callers
    /// validate first, then query. Succeeds exactly when `from` comes no
    /// later than `to`.
    pub fn validate_range(from: VerseIndex, to: VerseIndex) -> (r: Result<(), DataError>)
        ensures
            r is Ok <==> spec_le(from, to),
            r matches Err(e) ==> e.spec_kind() == ErrorKind::Validation,
    {
        if from.le(&to) {
            Ok(())
        } else {
            Err(DataError::new(ErrorKind::Validation, "Začátek pasáže se nachází až za koncem"))
        }
    }

    /// Builds the passage `[from, to]` of the given translation out of
    /// the rows storage returned for that range, in the order it
    /// returned them. Succeeds exactly when the range is not reversed
    /// and the rows walk the canon from `from` to `to` with no verse
    /// missing and none astray; then the passage carries the rows'
    /// verse numbers and texts in that order. A reversed range is a
    /// validation error, an empty result means the range is absent from
    /// the translation, and any other mismatch is an integrity error
    /// naming the first address at which the walk broke off.
    pub fn assemble(
        from: VerseIndex,
        to: VerseIndex,
        translation_id: i64,
        translation_name: String,
        rows: &Vec<VerseRow>,
    ) -> (r: Result<Passage, DataError>)
        requires
            from.wf(),
            to.wf(),
        ensures
            r is Ok <==> (spec_le(from, to) && spec_rows_form_range(rows@, from, to)),
            r matches Ok(p) ==> {
                &&& p.spec_from() == from
                &&& p.spec_to() == to
                &&& p.spec_translation_id() == translation_id
                &&& p.spec_translation_name() == translation_name@
                &&& p.spec_verses().len() == rows@.len()
                &&& forall|i: int|
                    0 <= i < rows@.len() ==> (#[trigger] p.spec_verses()[i]).0 as int
                        == rows@[i].number
                &&& forall|i: int|
                    0 <= i < rows@.len() ==> (#[trigger] p.spec_verses()[i]).1@
                        == rows@[i].content@
            },
            r matches Err(e) ==> e.spec_kind() == if !spec_le(from, to) {
                ErrorKind::Validation
            } else if rows@.len() == 0 {
                ErrorKind::NotFound
            } else {
                ErrorKind::Integrity
            },
    {
        if !from.le(&to) {
            return Err(
                DataError::new(ErrorKind::Validation, "Začátek pasáže se nachází až za koncem"),
            );
        }
        if rows.len() == 0 {
            return Err(
                DataError::new(ErrorKind::NotFound, "Překlad neobsahuje žádný verš z dané pasáže"),
            );
        }
        let mut verses: Vec<(u8, String)> = Vec::new();
        let mut i: usize = 0;
        let mut expected = from;
        while i < rows.len()
            invariant
                from.wf(),
                to.wf(),
                expected.wf(),
                spec_le(from, expected),
                spec_le(expected, to),
                i <= rows@.len(),
                rows@.len() >= 1,
                spec_le(from, to),
                i == 0 ==> expected == from,
                i > 0 ==> spec_row_at(rows@[i - 1], expected),
                forall|j: int| 0 <= j < i ==> spec_row_valid(#[trigger] rows@[j]),
                i > 0 ==> spec_row_at(rows@[0], from),
                forall|j: int|
                    0 <= j < i - 1 ==> spec_successor(
                        spec_row_triple(rows@[j]).0,
                        spec_row_triple(rows@[j]).1,
                        spec_row_triple(rows@[j]).2,
                    ) == Some(spec_row_triple(#[trigger] rows@[j + 1])),
                verses@.len() == i,
                forall|j: int|
                    0 <= j < i ==> (#[trigger] verses@[j]).0 as int == rows@[j].number,
                forall|j: int| 0 <= j < i ==> (#[trigger] verses@[j]).1@ == rows@[j].content@,
            decreases rows@.len() - i,
        {
            let ghost prev = expected;
            if i > 0 {
                if expected == to {
                    // the walk already reached `to`, yet more rows follow
                    proof {
                        lemma_no_walk_past_to(rows@, from, to, i as int);
                    }
                    return Err(missing_verse_error(&expected, true));
                }
                proof {
                    lemma_order_total(expected, to);
                    lemma_successor_exists(expected, to);
                }
                let next = match expected.successor() {
                    Some(w) => w,
                    None => {
                        proof {
                            assert(false);
                        }
                        expected
                    },
                };
                proof {
                    lemma_successor_between(expected, next, to);
                }
                expected = next;
            }
            let ok = check_row_at(&rows[i], &expected);
            if !ok {
                proof {
                    assert(!spec_rows_form_range(rows@, from, to)) by {
                        if spec_rows_form_range(rows@, from, to) {
                            if i == 0 {
                                assert(spec_row_at(rows@[0], from));
                            } else {
                                lemma_row_at_unique(rows@[i - 1], prev);
                                assert(spec_successor(
                                    spec_row_triple(rows@[i - 1]).0,
                                    spec_row_triple(rows@[i - 1]).1,
                                    spec_row_triple(rows@[i - 1]).2,
                                ) == Some(spec_row_triple(rows@[i - 1 + 1])));
                                assert(rows@[i - 1 + 1] == rows@[i as int]);
                                assert(spec_row_triple(rows@[i as int]) == spec_triple(expected));
                                lemma_triple_forces_at(rows@[i as int], expected);
                            }
                        }
                    }
                }
                return Err(missing_verse_error(&expected, false));
            }
            proof {
                if i > 0 {
                    lemma_row_at_unique(rows@[i - 1], prev);
                    lemma_row_at_unique(rows@[i as int], expected);
                    assert(spec_successor(
                        spec_row_triple(rows@[i - 1]).0,
                        spec_row_triple(rows@[i - 1]).1,
                        spec_row_triple(rows@[i - 1]).2,
                    ) == Some(spec_row_triple(rows@[i as int])));
                } else {
                    lemma_row_at_unique(rows@[0], expected);
                }
            }
            let number = rows[i].number;
            let content = clone_string(&rows[i].content);
            verses.push((number as u8, content));
            i += 1;
        }
        if !(expected == to) {
            // the rows ran out before the walk reached `to`
            proof {
                assert(!spec_rows_form_range(rows@, from, to)) by {
                    if spec_rows_form_range(rows@, from, to) {
                        lemma_row_at_unique(rows@[rows@.len() - 1], expected);
                        assert(spec_triple(to) == spec_triple(expected));
                        VerseIndex::lemma_eq_by_parts(to, expected);
                    }
                }
                lemma_order_total(expected, to);
                lemma_successor_exists(expected, to);
            }
            let w = match expected.successor() {
                Some(w) => w,
                None => {
                    proof {
                        assert(false);
                    }
                    expected
                },
            };
            return Err(missing_verse_error(&w, false));
        }
        Ok(Passage { from, to, translation_id, translation_name, verses })
    }

    /// The ordered verses of the passage, as `(number, text)` pairs.
    pub fn get_verses(&self) -> (r: &Vec<(u8, String)>)
        ensures
            r@ == self.spec_verses(),
    {
        &self.verses
    }

    /// The two endpoints of the passage.
    pub fn get_range(&self) -> (r: (VerseIndex, VerseIndex))
        ensures
            r.0 == self.spec_from(),
            r.1 == self.spec_to(),
    {
        (self.from, self.to)
    }

    /// The translation the passage was read from.
    pub fn get_translation_id(&self) -> (r: i64)
        ensures
            r == self.spec_translation_id(),
    {
        self.translation_id
    }

    /// The name of the translation the passage was read from.
    pub fn get_translation_name(&self) -> (r: &str)
        ensures
            r@ == self.spec_translation_name(),
    {
        self.translation_name.as_str()
    }
}

/// Whether the row sits at address `v`.
fn check_row_at(row: &VerseRow, v: &VerseIndex) -> (r: bool)
    ensures
        r == spec_row_at(*row, *v),
{
    let (bo, ch, vn) = v.destructure();
    row.book_order == bo as i64 && row.chapter == ch as i64 && row.number == vn as i64
}

/// A row at a well-formed address `v` is valid, claims exactly the
/// triple of `v`, and sits at no other address.
proof fn lemma_row_at_unique(row: VerseRow, v: VerseIndex)
    requires
        v.wf(),
        spec_row_at(row, v),
    ensures
        spec_row_valid(row),
        spec_row_triple(row) == spec_triple(v),
{
    crate::bible::lemma_book_order_roundtrip(v.spec_book());
}

/// A valid row whose triple is the triple of `v` sits at `v`.
proof fn lemma_triple_forces_at(row: VerseRow, v: VerseIndex)
    requires
        spec_row_valid(row),
        spec_row_triple(row) == spec_triple(v),
    ensures
        spec_row_at(row, v),
{
    crate::verse_index::lemma_book_from_order_ord(row.book_order as int);
}

/// A walk cannot pass through `to` and then continue: when a row other
/// than the last sits at `to`, the rows do not form the range.
proof fn lemma_no_walk_past_to(rows: Seq<VerseRow>, from: VerseIndex, to: VerseIndex, i: int)
    requires
        to.wf(),
        0 < i < rows.len(),
        spec_row_at(rows[i - 1], to),
    ensures
        !spec_rows_form_range(rows, from, to),
{
    if spec_rows_form_range(rows, from, to) {
        let last = rows.len() - 1;
        lemma_row_at_unique(rows[i - 1], to);
        lemma_row_at_unique(rows[last], to);
        lemma_chain_lt_carries(rows, i - 1, last);
    }
}

/// A successor link between two valid rows moves strictly forward in
/// the reading order of triples.
proof fn lemma_triple_successor_lt(a: VerseRow, b: VerseRow)
    requires
        spec_row_valid(a),
        spec_row_valid(b),
        spec_successor(
            spec_row_triple(a).0,
            spec_row_triple(a).1,
            spec_row_triple(a).2,
        ) == Some(spec_row_triple(b)),
    ensures
        spec_triple_lt(spec_row_triple(a), spec_row_triple(b)),
{
    let t = spec_row_triple(a);
    crate::bible::lemma_book_order_roundtrip(t.0);
    crate::versification::lemma_versification_positive(t.0);
    if (t.2 as nat) < crate::versification::spec_verse_count(t.0, t.1 as int) {
    } else if (t.1 as nat) < crate::versification::spec_chapter_count(t.0) {
    } else {
        crate::verse_index::lemma_book_from_order_ord(spec_book_order(t.0) + 1);
    }
}

/// Strict reading order on raw triples: book ordinal, then chapter,
/// then verse.
pub open spec fn spec_triple_lt(a: (Book, u8, u8), b: (Book, u8, u8)) -> bool {
    ||| spec_book_order(a.0) < spec_book_order(b.0)
    ||| (a.0 == b.0 && a.1 < b.1)
    ||| (a.0 == b.0 && a.1 == b.1 && a.2 < b.2)
}

/// The strict order on triples carries along a chain of successor
/// links: in particular, two distinct positions of a walk never carry
/// the same address.
proof fn lemma_chain_lt_carries(rows: Seq<VerseRow>, i: int, j: int)
    requires
        0 <= i < j < rows.len(),
        forall|k: int| 0 <= k < rows.len() ==> spec_row_valid(#[trigger] rows[k]),
        forall|k: int|
            0 <= k < rows.len() - 1 ==> spec_successor(
                spec_row_triple(rows[k]).0,
                spec_row_triple(rows[k]).1,
                spec_row_triple(rows[k]).2,
            ) == Some(spec_row_triple(#[trigger] rows[k + 1])),
    ensures
        spec_triple_lt(spec_row_triple(rows[i]), spec_row_triple(rows[j])),
        spec_row_triple(rows[i]) != spec_row_triple(rows[j]),
    decreases j - i,
{
    lemma_triple_successor_lt(rows[i], rows[i + 1]);
    if i + 1 < j {
        lemma_chain_lt_carries(rows, i + 1, j);
        lemma_triple_lt_transitive(
            spec_row_triple(rows[i]),
            spec_row_triple(rows[i + 1]),
            spec_row_triple(rows[j]),
        );
    }
}

/// Transitivity of the strict order on triples.
proof fn lemma_triple_lt_transitive(a: (Book, u8, u8), b: (Book, u8, u8), c: (Book, u8, u8))
    requires
        spec_triple_lt(a, b),
        spec_triple_lt(b, c),
    ensures
        spec_triple_lt(a, c),
{
    crate::bible::lemma_book_order_injective(a.0, b.0);
    crate::bible::lemma_book_order_injective(b.0, c.0);
    crate::bible::lemma_book_order_injective(a.0, c.0);
}

/// The integrity error for a broken walk, naming the address at which a
/// verse was expected. `past_end` distinguishes rows that continue after
/// the end of the range.
fn missing_verse_error(v: &VerseIndex, past_end: bool) -> (r: DataError)
    ensures
        r.spec_kind() == ErrorKind::Integrity,
{
    let mut message = if past_end {
        "Překlad obsahuje verše navíc za koncem pasáže, od ".to_owned()
    } else {
        "V překladu chybí verš ".to_owned()
    };
    message.append(v.book().title().as_str());
    message.append(" ");
    message.append(u8_to_string(v.chapter()).as_str());
    message.append(":");
    message.append(u8_to_string(v.verse()).as_str());
    DataError::from_string(ErrorKind::Integrity, message)
}

/// A fresh string with the same characters.
fn clone_string(s: &String) -> (r: String)
    ensures
        r@ == s@,
{
    s.clone()
}

} // verus!
