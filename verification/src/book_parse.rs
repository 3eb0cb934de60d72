//! Reading human-facing Scripture references: book names (with synonyms
//! and numeric-prefixed forms, case-insensitively) and the quick
//! reference notation `BOOK CHAPTER:VERSE[-[BOOK ][CHAPTER:]VERSE]`.
//!
//! The quick notation names a range; parts left out of the end repeat
//! the corresponding part of the start, so `Jan 2:1-3` runs from John
//! 2:1 to John 2:3. A book is one word, two words, or an ordinal numeral
//! with a full stop before a word. Text that does not fit the notation
//! selects nothing.

use vstd::prelude::*;
use vstd::string::StrSliceExecFns;
use crate::bible::Book;
use crate::error::{DataError, ErrorKind};
use crate::text::{str_eq, lowercase, lower_of, spec_is_alphabetic, is_alphabetic_char};
use crate::verse_index::{VerseIndex, spec_le, spec_valid_index};

verus! {

/// The book that an already-lowercased name denotes: the lowercase form
/// of a canonical display name, or one of the accepted synonyms and
/// numeric-prefixed forms. Unknown text denotes no book.
pub open spec fn spec_book_of_name(t: Seq<char>) -> Option<Book> {
    if t == "genesis"@ {
        Some(Book::Genesis)
    } else if t == "1. mojžíšova"@ {
        Some(Book::Genesis)
    } else if t == "exodus"@ {
        Some(Book::Exodus)
    } else if t == "2. mojžíšova"@ {
        Some(Book::Exodus)
    } else if t == "leviticus"@ {
        Some(Book::Leviticus)
    } else if t == "3. mojžíšova"@ {
        Some(Book::Leviticus)
    } else if t == "numeri"@ {
        Some(Book::Numbers)
    } else if t == "4. mojžíšova"@ {
        Some(Book::Numbers)
    } else if t == "deuteronomium"@ {
        Some(Book::Deuteronomy)
    } else if t == "5. mojžíšova"@ {
        Some(Book::Deuteronomy)
    } else if t == "jozue"@ {
        Some(Book::Joshua)
    } else if t == "soudců"@ {
        Some(Book::Judges)
    } else if t == "rút"@ {
        Some(Book::Ruth)
    } else if t == "1. samuelova"@ {
        Some(Book::Samuel1)
    } else if t == "2. samuelova"@ {
        Some(Book::Samuel2)
    } else if t == "1. královská"@ {
        Some(Book::Kings1)
    } else if t == "2. královská"@ {
        Some(Book::Kings2)
    } else if t == "1. paralipomenon"@ {
        Some(Book::Chronicles1)
    } else if t == "2. paralipomenon"@ {
        Some(Book::Chronicles2)
    } else if t == "ezdráš"@ {
        Some(Book::Ezra)
    } else if t == "nehemjáš"@ {
        Some(Book::Nehemiah)
    } else if t == "ester"@ {
        Some(Book::Esther)
    } else if t == "jób"@ {
        Some(Book::Job)
    } else if t == "žalmy"@ {
        Some(Book::Psalms)
    } else if t == "žalm"@ {
        Some(Book::Psalms)
    } else if t == "přísloví"@ {
        Some(Book::Proverbs)
    } else if t == "kazatel"@ {
        Some(Book::Ecclesiastes)
    } else if t == "píseň písní"@ {
        Some(Book::SongOfSolomon)
    } else if t == "píseň šalomounova"@ {
        Some(Book::SongOfSolomon)
    } else if t == "izajáš"@ {
        Some(Book::Isaiah)
    } else if t == "jeremjáš"@ {
        Some(Book::Jeremiah)
    } else if t == "pláč"@ {
        Some(Book::Lamentations)
    } else if t == "ezechiel"@ {
        Some(Book::Ezekiel)
    } else if t == "daniel"@ {
        Some(Book::Daniel)
    } else if t == "ozeáš"@ {
        Some(Book::Hosea)
    } else if t == "jóel"@ {
        Some(Book::Joel)
    } else if t == "ámos"@ {
        Some(Book::Amos)
    } else if t == "abdijáš"@ {
        Some(Book::Obadiah)
    } else if t == "jonáš"@ {
        Some(Book::Jonah)
    } else if t == "micheáš"@ {
        Some(Book::Micah)
    } else if t == "nahum"@ {
        Some(Book::Nahum)
    } else if t == "abakuk"@ {
        Some(Book::Habakkuk)
    } else if t == "sofonjáš"@ {
        Some(Book::Zephaniah)
    } else if t == "ageus"@ {
        Some(Book::Haggai)
    } else if t == "zacharjáš"@ {
        Some(Book::Zechariah)
    } else if t == "malachiáš"@ {
        Some(Book::Malachi)
    } else if t == "matouš"@ {
        Some(Book::Matthew)
    } else if t == "marek"@ {
        Some(Book::Mark)
    } else if t == "lukáš"@ {
        Some(Book::Luke)
    } else if t == "jan"@ {
        Some(Book::John)
    } else if t == "skutky"@ {
        Some(Book::Acts)
    } else if t == "skutky apoštolů"@ {
        Some(Book::Acts)
    } else if t == "římanům"@ {
        Some(Book::Romans)
    } else if t == "1. korintským"@ {
        Some(Book::Corinthians1)
    } else if t == "2. korintským"@ {
        Some(Book::Corinthians2)
    } else if t == "galatským"@ {
        Some(Book::Galatians)
    } else if t == "efezským"@ {
        Some(Book::Ephesians)
    } else if t == "filipským"@ {
        Some(Book::Philippians)
    } else if t == "koloským"@ {
        Some(Book::Colossians)
    } else if t == "1. tesalonickým"@ {
        Some(Book::Thessalonians1)
    } else if t == "2. tesalonickým"@ {
        Some(Book::Thessalonians2)
    } else if t == "1. timoteovi"@ {
        Some(Book::Timothy1)
    } else if t == "2. timoteovi"@ {
        Some(Book::Timothy2)
    } else if t == "titovi"@ {
        Some(Book::Titus)
    } else if t == "filemonovi"@ {
        Some(Book::Philemon)
    } else if t == "židům"@ {
        Some(Book::Hebrews)
    } else if t == "jakub"@ {
        Some(Book::James)
    } else if t == "1. petrova"@ {
        Some(Book::Peter1)
    } else if t == "2. petrova"@ {
        Some(Book::Peter2)
    } else if t == "1. janova"@ {
        Some(Book::John1)
    } else if t == "2. janova"@ {
        Some(Book::John2)
    } else if t == "3. janova"@ {
        Some(Book::John3)
    } else if t == "juda"@ {
        Some(Book::Jude)
    } else if t == "zjevení"@ {
        Some(Book::Revelation)
    } else if t == "zjevení janovo"@ {
        Some(Book::Revelation)
    } else {
        None
    }
}

/// Parses a human-facing book name, case-insensitively: canonical
/// display names, known synonyms and numeric-prefixed forms are
/// accepted; anything else yields `None`.
pub fn parse_book_name(name: &str) -> (r: Option<Book>)
    ensures
        r == spec_book_of_name(lower_of(name@)),
{
    let folded = lowercase(name);
    let f = folded.as_str();
    if str_eq(f, "genesis") {
        Some(Book::Genesis)
    } else if str_eq(f, "1. mojžíšova") {
        Some(Book::Genesis)
    } else if str_eq(f, "exodus") {
        Some(Book::Exodus)
    } else if str_eq(f, "2. mojžíšova") {
        Some(Book::Exodus)
    } else if str_eq(f, "leviticus") {
        Some(Book::Leviticus)
    } else if str_eq(f, "3. mojžíšova") {
        Some(Book::Leviticus)
    } else if str_eq(f, "numeri") {
        Some(Book::Numbers)
    } else if str_eq(f, "4. mojžíšova") {
        Some(Book::Numbers)
    } else if str_eq(f, "deuteronomium") {
        Some(Book::Deuteronomy)
    } else if str_eq(f, "5. mojžíšova") {
        Some(Book::Deuteronomy)
    } else if str_eq(f, "jozue") {
        Some(Book::Joshua)
    } else if str_eq(f, "soudců") {
        Some(Book::Judges)
    } else if str_eq(f, "rút") {
        Some(Book::Ruth)
    } else if str_eq(f, "1. samuelova") {
        Some(Book::Samuel1)
    } else if str_eq(f, "2. samuelova") {
        Some(Book::Samuel2)
    } else if str_eq(f, "1. královská") {
        Some(Book::Kings1)
    } else if str_eq(f, "2. královská") {
        Some(Book::Kings2)
    } else if str_eq(f, "1. paralipomenon") {
        Some(Book::Chronicles1)
    } else if str_eq(f, "2. paralipomenon") {
        Some(Book::Chronicles2)
    } else if str_eq(f, "ezdráš") {
        Some(Book::Ezra)
    } else if str_eq(f, "nehemjáš") {
        Some(Book::Nehemiah)
    } else if str_eq(f, "ester") {
        Some(Book::Esther)
    } else if str_eq(f, "jób") {
        Some(Book::Job)
    } else if str_eq(f, "žalmy") {
        Some(Book::Psalms)
    } else if str_eq(f, "žalm") {
        Some(Book::Psalms)
    } else if str_eq(f, "přísloví") {
        Some(Book::Proverbs)
    } else if str_eq(f, "kazatel") {
        Some(Book::Ecclesiastes)
    } else if str_eq(f, "píseň písní") {
        Some(Book::SongOfSolomon)
    } else if str_eq(f, "píseň šalomounova") {
        Some(Book::SongOfSolomon)
    } else if str_eq(f, "izajáš") {
        Some(Book::Isaiah)
    } else if str_eq(f, "jeremjáš") {
        Some(Book::Jeremiah)
    } else if str_eq(f, "pláč") {
        Some(Book::Lamentations)
    } else if str_eq(f, "ezechiel") {
        Some(Book::Ezekiel)
    } else if str_eq(f, "daniel") {
        Some(Book::Daniel)
    } else if str_eq(f, "ozeáš") {
        Some(Book::Hosea)
    } else if str_eq(f, "jóel") {
        Some(Book::Joel)
    } else if str_eq(f, "ámos") {
        Some(Book::Amos)
    } else if str_eq(f, "abdijáš") {
        Some(Book::Obadiah)
    } else if str_eq(f, "jonáš") {
        Some(Book::Jonah)
    } else if str_eq(f, "micheáš") {
        Some(Book::Micah)
    } else if str_eq(f, "nahum") {
        Some(Book::Nahum)
    } else if str_eq(f, "abakuk") {
        Some(Book::Habakkuk)
    } else if str_eq(f, "sofonjáš") {
        Some(Book::Zephaniah)
    } else if str_eq(f, "ageus") {
        Some(Book::Haggai)
    } else if str_eq(f, "zacharjáš") {
        Some(Book::Zechariah)
    } else if str_eq(f, "malachiáš") {
        Some(Book::Malachi)
    } else if str_eq(f, "matouš") {
        Some(Book::Matthew)
    } else if str_eq(f, "marek") {
        Some(Book::Mark)
    } else if str_eq(f, "lukáš") {
        Some(Book::Luke)
    } else if str_eq(f, "jan") {
        Some(Book::John)
    } else if str_eq(f, "skutky") {
        Some(Book::Acts)
    } else if str_eq(f, "skutky apoštolů") {
        Some(Book::Acts)
    } else if str_eq(f, "římanům") {
        Some(Book::Romans)
    } else if str_eq(f, "1. korintským") {
        Some(Book::Corinthians1)
    } else if str_eq(f, "2. korintským") {
        Some(Book::Corinthians2)
    } else if str_eq(f, "galatským") {
        Some(Book::Galatians)
    } else if str_eq(f, "efezským") {
        Some(Book::Ephesians)
    } else if str_eq(f, "filipským") {
        Some(Book::Philippians)
    } else if str_eq(f, "koloským") {
        Some(Book::Colossians)
    } else if str_eq(f, "1. tesalonickým") {
        Some(Book::Thessalonians1)
    } else if str_eq(f, "2. tesalonickým") {
        Some(Book::Thessalonians2)
    } else if str_eq(f, "1. timoteovi") {
        Some(Book::Timothy1)
    } else if str_eq(f, "2. timoteovi") {
        Some(Book::Timothy2)
    } else if str_eq(f, "titovi") {
        Some(Book::Titus)
    } else if str_eq(f, "filemonovi") {
        Some(Book::Philemon)
    } else if str_eq(f, "židům") {
        Some(Book::Hebrews)
    } else if str_eq(f, "jakub") {
        Some(Book::James)
    } else if str_eq(f, "1. petrova") {
        Some(Book::Peter1)
    } else if str_eq(f, "2. petrova") {
        Some(Book::Peter2)
    } else if str_eq(f, "1. janova") {
        Some(Book::John1)
    } else if str_eq(f, "2. janova") {
        Some(Book::John2)
    } else if str_eq(f, "3. janova") {
        Some(Book::John3)
    } else if str_eq(f, "juda") {
        Some(Book::Jude)
    } else if str_eq(f, "zjevení") {
        Some(Book::Revelation)
    } else if str_eq(f, "zjevení janovo") {
        Some(Book::Revelation)
    } else {
        None
    }
}

/// Whether `c` is one of the ten decimal digit characters.
pub open spec fn spec_is_digit(c: char) -> bool {
    c == '0' || c == '1' || c == '2' || c == '3' || c == '4' || c == '5' || c == '6' || c == '7'
        || c == '8' || c == '9'
}

/// The numeric value of a digit character; 0 for anything else.
pub open spec fn spec_digit_value(c: char) -> int {
    if c == '0' {
        0
    } else if c == '1' {
        1
    } else if c == '2' {
        2
    } else if c == '3' {
        3
    } else if c == '4' {
        4
    } else if c == '5' {
        5
    } else if c == '6' {
        6
    } else if c == '7' {
        7
    } else if c == '8' {
        8
    } else if c == '9' {
        9
    } else {
        0
    }
}

/// Whether `c` is one of the ten decimal digit characters.
fn is_digit_char(c: char) -> (r: bool)
    ensures
        r == spec_is_digit(c),
{
    c == '0' || c == '1' || c == '2' || c == '3' || c == '4' || c == '5' || c == '6' || c == '7'
        || c == '8' || c == '9'
}

/// The numeric value of a digit character.
fn digit_value(c: char) -> (r: u8)
    ensures
        r as int == spec_digit_value(c),
        r <= 9,
{
    if c == '0' {
        0
    } else if c == '1' {
        1
    } else if c == '2' {
        2
    } else if c == '3' {
        3
    } else if c == '4' {
        4
    } else if c == '5' {
        5
    } else if c == '6' {
        6
    } else if c == '7' {
        7
    } else if c == '8' {
        8
    } else if c == '9' {
        9
    } else {
        0
    }
}

/// Where the run of alphabetic characters starting at `i` ends.
pub open spec fn spec_word_end(s: Seq<char>, i: int) -> int
    decreases s.len() - i,
{
    if i < 0 || i >= s.len() {
        i
    } else if spec_is_alphabetic(s[i]) {
        spec_word_end(s, i + 1)
    } else {
        i
    }
}

/// Where the run of space characters starting at `i` ends.
pub open spec fn spec_spaces_end(s: Seq<char>, i: int) -> int
    decreases s.len() - i,
{
    if i < 0 || i >= s.len() {
        i
    } else if s[i] == ' ' {
        spec_spaces_end(s, i + 1)
    } else {
        i
    }
}

/// Where the run of digit characters starting at `i` ends.
pub open spec fn spec_digits_end(s: Seq<char>, i: int) -> int
    decreases s.len() - i,
{
    if i < 0 || i >= s.len() {
        i
    } else if spec_is_digit(s[i]) {
        spec_digits_end(s, i + 1)
    } else {
        i
    }
}

/// The value of the digits `s[i..j)` read in decimal.
pub open spec fn spec_digits_val(s: Seq<char>, i: int, j: int) -> int
    decreases j - i,
{
    if i >= j {
        0
    } else {
        spec_digits_val(s, i, j - 1) * 10 + spec_digit_value(s[j - 1])
    }
}

/// The digit value is never negative.
proof fn lemma_digits_val_nonneg(s: Seq<char>, i: int, j: int)
    ensures
        spec_digits_val(s, i, j) >= 0,
    decreases j - i,
{
    if i < j {
        lemma_digits_val_nonneg(s, i, j - 1);
    }
}

/// The number `s[i..j)` denotes, when it is a non-empty digit run whose
/// value fits an eight-bit count; `None` otherwise, as for a number a
/// picker cannot hold.
pub open spec fn spec_num_u8(s: Seq<char>, i: int, j: int) -> Option<u8> {
    if i < j && spec_digits_val(s, i, j) <= 255 {
        Some(spec_digits_val(s, i, j) as u8)
    } else {
        None
    }
}

/// Where the run of alphabetic characters starting at `i` ends.
fn word_end(s: &str, i: usize) -> (r: usize)
    requires
        i <= s@.len(),
    ensures
        r as int == spec_word_end(s@, i as int),
        i <= r <= s@.len(),
{
    let n = s.unicode_len();
    let mut j = i;
    while j < n && is_alphabetic_char(s.get_char(j))
        invariant
            n == s@.len(),
            i <= j <= n,
            spec_word_end(s@, i as int) == spec_word_end(s@, j as int),
        decreases n - j,
    {
        j += 1;
    }
    j
}

/// Where the run of space characters starting at `i` ends.
fn spaces_end(s: &str, i: usize) -> (r: usize)
    requires
        i <= s@.len(),
    ensures
        r as int == spec_spaces_end(s@, i as int),
        i <= r <= s@.len(),
{
    let n = s.unicode_len();
    let mut j = i;
    while j < n && s.get_char(j) == ' '
        invariant
            n == s@.len(),
            i <= j <= n,
            spec_spaces_end(s@, i as int) == spec_spaces_end(s@, j as int),
        decreases n - j,
    {
        j += 1;
    }
    j
}

/// Where the run of digit characters starting at `i` ends.
fn digits_end(s: &str, i: usize) -> (r: usize)
    requires
        i <= s@.len(),
    ensures
        r as int == spec_digits_end(s@, i as int),
        i <= r <= s@.len(),
{
    let n = s.unicode_len();
    let mut j = i;
    while j < n && is_digit_char(s.get_char(j))
        invariant
            n == s@.len(),
            i <= j <= n,
            spec_digits_end(s@, i as int) == spec_digits_end(s@, j as int),
        decreases n - j,
    {
        j += 1;
    }
    j
}

/// Reads the digits `s[i..j)` as a number below 256.
fn parse_num_u8(s: &str, i: usize, j: usize) -> (r: Option<u8>)
    requires
        i <= j <= s@.len(),
    ensures
        r == spec_num_u8(s@, i as int, j as int),
{
    if i >= j {
        return None;
    }
    let mut acc: u32 = 0;
    let mut k = i;
    while k < j
        invariant
            i <= k <= j <= s@.len(),
            acc <= 256,
            spec_digits_val(s@, i as int, k as int) <= 255 ==> acc == spec_digits_val(
                s@,
                i as int,
                k as int,
            ),
            spec_digits_val(s@, i as int, k as int) > 255 ==> acc == 256,
        decreases j - k,
    {
        let d = digit_value(s.get_char(k));
        proof {
            lemma_digits_val_nonneg(s@, i as int, k as int);
        }
        acc = acc * 10 + d as u32;
        if acc > 255 {
            acc = 256;
        }
        k += 1;
    }
    proof {
        lemma_digits_val_nonneg(s@, i as int, j as int);
    }
    if acc <= 255 {
        Some(acc as u8)
    } else {
        None
    }
}

/// The partially chosen endpoints of a passage: each part is picked by
/// the user in turn, so every part may still be missing.
#[derive(Debug, PartialEq, Eq, Clone, Copy)]
pub struct BiblePickerIndexes {
    /// The book of the start address.
    pub picked_from_book: Option<Book>,
    /// The chapter of the start address.
    pub picked_from_chapter: Option<u8>,
    /// The verse of the start address.
    pub picked_from_verse: Option<u8>,
    /// The book of the end address.
    pub picked_to_book: Option<Book>,
    /// The chapter of the end address.
    pub picked_to_chapter: Option<u8>,
    /// The verse of the end address.
    pub picked_to_verse: Option<u8>,
}

/// The selection with nothing picked.
pub open spec fn spec_empty_indexes() -> BiblePickerIndexes {
    BiblePickerIndexes {
        picked_from_book: None,
        picked_from_chapter: None,
        picked_from_verse: None,
        picked_to_book: None,
        picked_to_chapter: None,
        picked_to_verse: None,
    }
}

impl BiblePickerIndexes {
    /// The selection with nothing picked.
    pub fn new() -> (r: Self)
        ensures
            r == spec_empty_indexes(),
    {
        BiblePickerIndexes {
            picked_from_book: None,
            picked_from_chapter: None,
            picked_from_verse: None,
            picked_to_book: None,
            picked_to_chapter: None,
            picked_to_verse: None,
        }
    }

    /// Whether nothing is picked yet.
    pub fn is_empty(&self) -> (r: bool)
        ensures
            r == (*self == spec_empty_indexes()),
    {
        self.picked_from_book.is_none() && self.picked_from_chapter.is_none()
            && self.picked_from_verse.is_none() && self.picked_to_book.is_none()
            && self.picked_to_chapter.is_none() && self.picked_to_verse.is_none()
    }
}

/// Where the book token starting the reference ends: an ordinal numeral
/// with a full stop, spaces and one word; or one word, optionally
/// followed by spaces and a second word when a second word is there.
/// A negative result means no book token starts at `i`.
pub open spec fn spec_book_token_end(s: Seq<char>, i: int) -> int {
    if i + 1 < s.len() && spec_is_digit(s[i]) && s[i + 1] == '.' {
        let j = spec_spaces_end(s, i + 2);
        let k = spec_word_end(s, j);
        if k > j {
            k
        } else {
            -1
        }
    } else {
        let k1 = spec_word_end(s, i);
        if k1 == i {
            -1
        } else {
            let j = spec_spaces_end(s, k1);
            let k2 = spec_word_end(s, j);
            if k2 > j {
                k2
            } else {
                k1
            }
        }
    }
}

/// Where the book token of the range's end ends: one word, or an
/// ordinal numeral with a full stop, spaces and one word. A result of
/// `i` means no book token (the start's book repeats); a negative
/// result means text that can be nothing else but fits no book either.
pub open spec fn spec_to_book_end(s: Seq<char>, i: int) -> int {
    if i < s.len() && spec_is_alphabetic(s[i]) {
        spec_word_end(s, i)
    } else if i + 1 < s.len() && spec_is_digit(s[i]) && s[i + 1] == '.' {
        let j = spec_spaces_end(s, i + 2);
        let k = spec_word_end(s, j);
        if k > j {
            k
        } else {
            -1
        }
    } else {
        i
    }
}

/// What the quick reference notation `BOOK CHAPTER:VERSE` with an
/// optional `- [BOOK ][CHAPTER:]VERSE` continuation denotes, part by
/// part: books go through the name table (an unknown name leaves that
/// book unpicked), numbers must fit an eight-bit count, and parts left
/// out of the end repeat the start. Text that does not fit the notation
/// denotes the empty selection.
pub open spec fn spec_parse_quick(s: Seq<char>) -> BiblePickerIndexes {
    let be = spec_book_token_end(s, 0);
    if be < 0 {
        spec_empty_indexes()
    } else {
        let from_book = spec_book_of_name(lower_of(s.subrange(0, be)));
        let c1 = spec_spaces_end(s, be);
        let c2 = spec_digits_end(s, c1);
        if c2 == c1 {
            spec_empty_indexes()
        } else {
            let from_chapter = spec_num_u8(s, c1, c2);
            let c3 = spec_spaces_end(s, c2);
            if !(c3 < s.len() && s[c3] == ':') {
                spec_empty_indexes()
            } else {
                let v1 = spec_spaces_end(s, c3 + 1);
                let v2 = spec_digits_end(s, v1);
                if v2 == v1 {
                    spec_empty_indexes()
                } else {
                    let from_verse = spec_num_u8(s, v1, v2);
                    let d = spec_spaces_end(s, v2);
                    if d == s.len() {
                        BiblePickerIndexes {
                            picked_from_book: from_book,
                            picked_from_chapter: from_chapter,
                            picked_from_verse: from_verse,
                            picked_to_book: from_book,
                            picked_to_chapter: from_chapter,
                            picked_to_verse: from_verse,
                        }
                    } else if s[d] != '-' {
                        spec_empty_indexes()
                    } else {
                        let t0 = spec_spaces_end(s, d + 1);
                        let tb = spec_to_book_end(s, t0);
                        if tb < 0 {
                            spec_empty_indexes()
                        } else {
                            let to_book = if tb == t0 {
                                from_book
                            } else {
                                spec_book_of_name(lower_of(s.subrange(t0, tb)))
                            };
                            let u0 = spec_spaces_end(s, tb);
                            let d1 = spec_digits_end(s, u0);
                            let e = spec_spaces_end(s, d1);
                            if e < s.len() && s[e] == ':' {
                                let to_chapter = if d1 > u0 {
                                    spec_num_u8(s, u0, d1)
                                } else {
                                    from_chapter
                                };
                                let w1 = spec_spaces_end(s, e + 1);
                                let w2 = spec_digits_end(s, w1);
                                if w2 > w1 && w2 == s.len() {
                                    BiblePickerIndexes {
                                        picked_from_book: from_book,
                                        picked_from_chapter: from_chapter,
                                        picked_from_verse: from_verse,
                                        picked_to_book: to_book,
                                        picked_to_chapter: to_chapter,
                                        picked_to_verse: spec_num_u8(s, w1, w2),
                                    }
                                } else {
                                    spec_empty_indexes()
                                }
                            } else {
                                if d1 > u0 && d1 == s.len() {
                                    BiblePickerIndexes {
                                        picked_from_book: from_book,
                                        picked_from_chapter: from_chapter,
                                        picked_from_verse: from_verse,
                                        picked_to_book: to_book,
                                        picked_to_chapter: from_chapter,
                                        picked_to_verse: spec_num_u8(s, u0, d1),
                                    }
                                } else {
                                    spec_empty_indexes()
                                }
                            }
                        }
                    }
                }
            }
        }
    }
}

/// Where the book token starting the reference ends, or `None`.
fn book_token_end(s: &str, i: usize) -> (r: Option<usize>)
    requires
        i <= s@.len(),
    ensures
        match r {
            Some(k) => k as int == spec_book_token_end(s@, i as int) && i <= k <= s@.len(),
            None => spec_book_token_end(s@, i as int) < 0,
        },
{
    let n = s.unicode_len();
    if i < n && i + 1 < n && is_digit_char(s.get_char(i)) && s.get_char(i + 1) == '.' {
        let j = spaces_end(s, i + 2);
        let k = word_end(s, j);
        if k > j {
            Some(k)
        } else {
            None
        }
    } else {
        let k1 = word_end(s, i);
        if k1 == i {
            None
        } else {
            let j = spaces_end(s, k1);
            let k2 = word_end(s, j);
            if k2 > j {
                Some(k2)
            } else {
                Some(k1)
            }
        }
    }
}

/// Where the book token of the range's end ends, or `None` for text
/// that fits no book and nothing else.
fn to_book_end(s: &str, i: usize) -> (r: Option<usize>)
    requires
        i <= s@.len(),
    ensures
        match r {
            Some(k) => k as int == spec_to_book_end(s@, i as int) && i <= k <= s@.len(),
            None => spec_to_book_end(s@, i as int) < 0,
        },
{
    let n = s.unicode_len();
    if i < n && is_alphabetic_char(s.get_char(i)) {
        Some(word_end(s, i))
    } else if i < n && i + 1 < n && is_digit_char(s.get_char(i)) && s.get_char(i + 1) == '.' {
        let j = spaces_end(s, i + 2);
        let k = word_end(s, j);
        if k > j {
            Some(k)
        } else {
            None
        }
    } else {
        Some(i)
    }
}

/// Reads the quick reference notation, exactly as [`spec_parse_quick`]
/// describes it.
pub fn parse_quick_selection(input: &str) -> (r: BiblePickerIndexes)
    ensures
        r == spec_parse_quick(input@),
{
    let n = input.unicode_len();
    let be = match book_token_end(input, 0) {
        Some(k) => k,
        None => {
            return BiblePickerIndexes::new();
        },
    };
    let from_book = parse_book_name(input.substring_char(0, be));
    proof {
        assert(input@.subrange(0, be as int) == input@.subrange(0, spec_book_token_end(input@, 0)));
    }
    let c1 = spaces_end(input, be);
    let c2 = digits_end(input, c1);
    if c2 == c1 {
        return BiblePickerIndexes::new();
    }
    let from_chapter = parse_num_u8(input, c1, c2);
    let c3 = spaces_end(input, c2);
    if !(c3 < n && input.get_char(c3) == ':') {
        return BiblePickerIndexes::new();
    }
    let v1 = spaces_end(input, c3 + 1);
    let v2 = digits_end(input, v1);
    if v2 == v1 {
        return BiblePickerIndexes::new();
    }
    let from_verse = parse_num_u8(input, v1, v2);
    let d = spaces_end(input, v2);
    if d == n {
        return BiblePickerIndexes {
            picked_from_book: from_book,
            picked_from_chapter: from_chapter,
            picked_from_verse: from_verse,
            picked_to_book: from_book,
            picked_to_chapter: from_chapter,
            picked_to_verse: from_verse,
        };
    }
    if !(input.get_char(d) == '-') {
        return BiblePickerIndexes::new();
    }
    let t0 = spaces_end(input, d + 1);
    let tb = match to_book_end(input, t0) {
        Some(k) => k,
        None => {
            return BiblePickerIndexes::new();
        },
    };
    let to_book = if tb == t0 {
        from_book
    } else {
        parse_book_name(input.substring_char(t0, tb))
    };
    let u0 = spaces_end(input, tb);
    let d1 = digits_end(input, u0);
    let e = spaces_end(input, d1);
    if e < n && input.get_char(e) == ':' {
        let to_chapter = if d1 > u0 {
            parse_num_u8(input, u0, d1)
        } else {
            from_chapter
        };
        let w1 = spaces_end(input, e + 1);
        let w2 = digits_end(input, w1);
        if w2 > w1 && w2 == n {
            BiblePickerIndexes {
                picked_from_book: from_book,
                picked_from_chapter: from_chapter,
                picked_from_verse: from_verse,
                picked_to_book: to_book,
                picked_to_chapter: to_chapter,
                picked_to_verse: parse_num_u8(input, w1, w2),
            }
        } else {
            BiblePickerIndexes::new()
        }
    } else {
        if d1 > u0 && d1 == n {
            BiblePickerIndexes {
                picked_from_book: from_book,
                picked_from_chapter: from_chapter,
                picked_from_verse: from_verse,
                picked_to_book: to_book,
                picked_to_chapter: from_chapter,
                picked_to_verse: parse_num_u8(input, u0, d1),
            }
        } else {
            BiblePickerIndexes::new()
        }
    }
}

/// Validates a selection: a translation must be picked, all six parts
/// must be picked, each endpoint must be an address the versification
/// table has, and the start must come no later than the end. On success
/// hands back the two validated addresses; any failure is a validation
/// error.
pub fn validate_selection(idx: &BiblePickerIndexes, translation_picked: bool) -> (r: Result<
    (VerseIndex, VerseIndex),
    DataError,
>)
    ensures
        r is Ok <==> {
            &&& translation_picked
            &&& idx.picked_from_book is Some
            &&& idx.picked_from_chapter is Some
            &&& idx.picked_from_verse is Some
            &&& idx.picked_to_book is Some
            &&& idx.picked_to_chapter is Some
            &&& idx.picked_to_verse is Some
            &&& spec_valid_index(
                idx.picked_from_book.unwrap(),
                idx.picked_from_chapter.unwrap(),
                idx.picked_from_verse.unwrap(),
            )
            &&& spec_valid_index(
                idx.picked_to_book.unwrap(),
                idx.picked_to_chapter.unwrap(),
                idx.picked_to_verse.unwrap(),
            )
            &&& ({
                let f = (idx.picked_from_book.unwrap(), idx.picked_from_chapter.unwrap(),
                idx.picked_from_verse.unwrap());
                let t = (idx.picked_to_book.unwrap(), idx.picked_to_chapter.unwrap(),
                idx.picked_to_verse.unwrap());
                spec_triple_le(f, t)
            })
        },
        r matches Ok(p) ==> {
            &&& p.0.spec_book() == idx.picked_from_book.unwrap()
            &&& p.0.spec_chapter() == idx.picked_from_chapter.unwrap()
            &&& p.0.spec_verse() == idx.picked_from_verse.unwrap()
            &&& p.1.spec_book() == idx.picked_to_book.unwrap()
            &&& p.1.spec_chapter() == idx.picked_to_chapter.unwrap()
            &&& p.1.spec_verse() == idx.picked_to_verse.unwrap()
            &&& p.0.wf()
            &&& p.1.wf()
            &&& spec_le(p.0, p.1)
        },
        r matches Err(e) ==> e.spec_kind() == ErrorKind::Validation,
{
    if !translation_picked {
        return Err(DataError::new(ErrorKind::Validation, "Nebyl vybrán příslušný překlad"));
    }
    let (fb, fc, fv) = match (&idx.picked_from_book, &idx.picked_from_chapter, &idx.picked_from_verse) {
        (Some(b), Some(c), Some(v)) => (*b, *c, *v),
        _ => {
            return Err(DataError::new(ErrorKind::Validation, "Pasáž ještě není vybraná celá"));
        },
    };
    let (tb, tc, tv) = match (&idx.picked_to_book, &idx.picked_to_chapter, &idx.picked_to_verse) {
        (Some(b), Some(c), Some(v)) => (*b, *c, *v),
        _ => {
            return Err(DataError::new(ErrorKind::Validation, "Pasáž ještě není vybraná celá"));
        },
    };
    let from = match VerseIndex::try_new(fb, fc, fv) {
        Some(v) => v,
        None => {
            return Err(DataError::new(ErrorKind::Validation, "Neplatný začátek pasáže"));
        },
    };
    let to = match VerseIndex::try_new(tb, tc, tv) {
        Some(v) => v,
        None => {
            return Err(DataError::new(ErrorKind::Validation, "Neplatný konec pasáže"));
        },
    };
    if from.le(&to) {
        Ok((from, to))
    } else {
        proof {
            crate::verse_index::lemma_order_total(from, to);
        }
        Err(DataError::new(ErrorKind::Validation, "Začátek pasáže se nachází až za koncem"))
    }
}

/// Non-strict reading order on raw `(book, chapter, verse)` triples.
pub open spec fn spec_triple_le(a: (Book, u8, u8), b: (Book, u8, u8)) -> bool {
    crate::passage::spec_triple_lt(a, b) || a == b
}

} // verus!
