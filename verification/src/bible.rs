//! The canonical ordering of the 66 books and their display names.
//!
//! Each book carries a fixed ordinal (0 for Genesis through 65 for
//! Revelation) that reflects the traditional reading order, and a
//! canonical display title. Name parsing lives in `book_parse`.

use vstd::prelude::*;
use crate::error::{DataError, ErrorKind};

verus! {

/// One of the 66 canonical books, in traditional reading order.
#[derive(Clone, Copy, Debug, PartialEq, Eq, Structural)]
pub enum Book {
    Genesis,
    Exodus,
    Leviticus,
    Numbers,
    Deuteronomy,
    Joshua,
    Judges,
    Ruth,
    Samuel1,
    Samuel2,
    Kings1,
    Kings2,
    Chronicles1,
    Chronicles2,
    Ezra,
    Nehemiah,
    Esther,
    Job,
    Psalms,
    Proverbs,
    Ecclesiastes,
    SongOfSolomon,
    Isaiah,
    Jeremiah,
    Lamentations,
    Ezekiel,
    Daniel,
    Hosea,
    Joel,
    Amos,
    Obadiah,
    Jonah,
    Micah,
    Nahum,
    Habakkuk,
    Zephaniah,
    Haggai,
    Zechariah,
    Malachi,
    Matthew,
    Mark,
    Luke,
    John,
    Acts,
    Romans,
    Corinthians1,
    Corinthians2,
    Galatians,
    Ephesians,
    Philippians,
    Colossians,
    Thessalonians1,
    Thessalonians2,
    Timothy1,
    Timothy2,
    Titus,
    Philemon,
    Hebrews,
    James,
    Peter1,
    Peter2,
    John1,
    John2,
    John3,
    Jude,
    Revelation,
}

/// All 66 books in canonical order; `BIBLE_BOOKS[i]` has ordinal `i`.
pub const BIBLE_BOOKS: [Book; 66] = [
    Book::Genesis,
    Book::Exodus,
    Book::Leviticus,
    Book::Numbers,
    Book::Deuteronomy,
    Book::Joshua,
    Book::Judges,
    Book::Ruth,
    Book::Samuel1,
    Book::Samuel2,
    Book::Kings1,
    Book::Kings2,
    Book::Chronicles1,
    Book::Chronicles2,
    Book::Ezra,
    Book::Nehemiah,
    Book::Esther,
    Book::Job,
    Book::Psalms,
    Book::Proverbs,
    Book::Ecclesiastes,
    Book::SongOfSolomon,
    Book::Isaiah,
    Book::Jeremiah,
    Book::Lamentations,
    Book::Ezekiel,
    Book::Daniel,
    Book::Hosea,
    Book::Joel,
    Book::Amos,
    Book::Obadiah,
    Book::Jonah,
    Book::Micah,
    Book::Nahum,
    Book::Habakkuk,
    Book::Zephaniah,
    Book::Haggai,
    Book::Zechariah,
    Book::Malachi,
    Book::Matthew,
    Book::Mark,
    Book::Luke,
    Book::John,
    Book::Acts,
    Book::Romans,
    Book::Corinthians1,
    Book::Corinthians2,
    Book::Galatians,
    Book::Ephesians,
    Book::Philippians,
    Book::Colossians,
    Book::Thessalonians1,
    Book::Thessalonians2,
    Book::Timothy1,
    Book::Timothy2,
    Book::Titus,
    Book::Philemon,
    Book::Hebrews,
    Book::James,
    Book::Peter1,
    Book::Peter2,
    Book::John1,
    Book::John2,
    Book::John3,
    Book::Jude,
    Book::Revelation,
];

/// The fixed ordinal of a book: 0 for Genesis through 65 for Revelation.
pub open spec fn spec_book_order(b: Book) -> int {
    match b {
        Book::Genesis => 0,
        Book::Exodus => 1,
        Book::Leviticus => 2,
        Book::Numbers => 3,
        Book::Deuteronomy => 4,
        Book::Joshua => 5,
        Book::Judges => 6,
        Book::Ruth => 7,
        Book::Samuel1 => 8,
        Book::Samuel2 => 9,
        Book::Kings1 => 10,
        Book::Kings2 => 11,
        Book::Chronicles1 => 12,
        Book::Chronicles2 => 13,
        Book::Ezra => 14,
        Book::Nehemiah => 15,
        Book::Esther => 16,
        Book::Job => 17,
        Book::Psalms => 18,
        Book::Proverbs => 19,
        Book::Ecclesiastes => 20,
        Book::SongOfSolomon => 21,
        Book::Isaiah => 22,
        Book::Jeremiah => 23,
        Book::Lamentations => 24,
        Book::Ezekiel => 25,
        Book::Daniel => 26,
        Book::Hosea => 27,
        Book::Joel => 28,
        Book::Amos => 29,
        Book::Obadiah => 30,
        Book::Jonah => 31,
        Book::Micah => 32,
        Book::Nahum => 33,
        Book::Habakkuk => 34,
        Book::Zephaniah => 35,
        Book::Haggai => 36,
        Book::Zechariah => 37,
        Book::Malachi => 38,
        Book::Matthew => 39,
        Book::Mark => 40,
        Book::Luke => 41,
        Book::John => 42,
        Book::Acts => 43,
        Book::Romans => 44,
        Book::Corinthians1 => 45,
        Book::Corinthians2 => 46,
        Book::Galatians => 47,
        Book::Ephesians => 48,
        Book::Philippians => 49,
        Book::Colossians => 50,
        Book::Thessalonians1 => 51,
        Book::Thessalonians2 => 52,
        Book::Timothy1 => 53,
        Book::Timothy2 => 54,
        Book::Titus => 55,
        Book::Philemon => 56,
        Book::Hebrews => 57,
        Book::James => 58,
        Book::Peter1 => 59,
        Book::Peter2 => 60,
        Book::John1 => 61,
        Book::John2 => 62,
        Book::John3 => 63,
        Book::Jude => 64,
        Book::Revelation => 65,
    }
}

/// The book that carries a given ordinal; callers pass an ordinal below 66.
pub open spec fn spec_book_from_order(o: int) -> Book {
    if o == 0 {
        Book::Genesis
    } else if o == 1 {
        Book::Exodus
    } else if o == 2 {
        Book::Leviticus
    } else if o == 3 {
        Book::Numbers
    } else if o == 4 {
        Book::Deuteronomy
    } else if o == 5 {
        Book::Joshua
    } else if o == 6 {
        Book::Judges
    } else if o == 7 {
        Book::Ruth
    } else if o == 8 {
        Book::Samuel1
    } else if o == 9 {
        Book::Samuel2
    } else if o == 10 {
        Book::Kings1
    } else if o == 11 {
        Book::Kings2
    } else if o == 12 {
        Book::Chronicles1
    } else if o == 13 {
        Book::Chronicles2
    } else if o == 14 {
        Book::Ezra
    } else if o == 15 {
        Book::Nehemiah
    } else if o == 16 {
        Book::Esther
    } else if o == 17 {
        Book::Job
    } else if o == 18 {
        Book::Psalms
    } else if o == 19 {
        Book::Proverbs
    } else if o == 20 {
        Book::Ecclesiastes
    } else if o == 21 {
        Book::SongOfSolomon
    } else if o == 22 {
        Book::Isaiah
    } else if o == 23 {
        Book::Jeremiah
    } else if o == 24 {
        Book::Lamentations
    } else if o == 25 {
        Book::Ezekiel
    } else if o == 26 {
        Book::Daniel
    } else if o == 27 {
        Book::Hosea
    } else if o == 28 {
        Book::Joel
    } else if o == 29 {
        Book::Amos
    } else if o == 30 {
        Book::Obadiah
    } else if o == 31 {
        Book::Jonah
    } else if o == 32 {
        Book::Micah
    } else if o == 33 {
        Book::Nahum
    } else if o == 34 {
        Book::Habakkuk
    } else if o == 35 {
        Book::Zephaniah
    } else if o == 36 {
        Book::Haggai
    } else if o == 37 {
        Book::Zechariah
    } else if o == 38 {
        Book::Malachi
    } else if o == 39 {
        Book::Matthew
    } else if o == 40 {
        Book::Mark
    } else if o == 41 {
        Book::Luke
    } else if o == 42 {
        Book::John
    } else if o == 43 {
        Book::Acts
    } else if o == 44 {
        Book::Romans
    } else if o == 45 {
        Book::Corinthians1
    } else if o == 46 {
        Book::Corinthians2
    } else if o == 47 {
        Book::Galatians
    } else if o == 48 {
        Book::Ephesians
    } else if o == 49 {
        Book::Philippians
    } else if o == 50 {
        Book::Colossians
    } else if o == 51 {
        Book::Thessalonians1
    } else if o == 52 {
        Book::Thessalonians2
    } else if o == 53 {
        Book::Timothy1
    } else if o == 54 {
        Book::Timothy2
    } else if o == 55 {
        Book::Titus
    } else if o == 56 {
        Book::Philemon
    } else if o == 57 {
        Book::Hebrews
    } else if o == 58 {
        Book::James
    } else if o == 59 {
        Book::Peter1
    } else if o == 60 {
        Book::Peter2
    } else if o == 61 {
        Book::John1
    } else if o == 62 {
        Book::John2
    } else if o == 63 {
        Book::John3
    } else if o == 64 {
        Book::Jude
    } else {
        Book::Revelation
    }
}

impl Book {
    /// The fixed ordinal of this book within the canonical order.
    pub fn order(self) -> (r: u8)
        ensures
            r as int == spec_book_order(self),
    {
        match self {
            Book::Genesis => 0,
            Book::Exodus => 1,
            Book::Leviticus => 2,
            Book::Numbers => 3,
            Book::Deuteronomy => 4,
            Book::Joshua => 5,
            Book::Judges => 6,
            Book::Ruth => 7,
            Book::Samuel1 => 8,
            Book::Samuel2 => 9,
            Book::Kings1 => 10,
            Book::Kings2 => 11,
            Book::Chronicles1 => 12,
            Book::Chronicles2 => 13,
            Book::Ezra => 14,
            Book::Nehemiah => 15,
            Book::Esther => 16,
            Book::Job => 17,
            Book::Psalms => 18,
            Book::Proverbs => 19,
            Book::Ecclesiastes => 20,
            Book::SongOfSolomon => 21,
            Book::Isaiah => 22,
            Book::Jeremiah => 23,
            Book::Lamentations => 24,
            Book::Ezekiel => 25,
            Book::Daniel => 26,
            Book::Hosea => 27,
            Book::Joel => 28,
            Book::Amos => 29,
            Book::Obadiah => 30,
            Book::Jonah => 31,
            Book::Micah => 32,
            Book::Nahum => 33,
            Book::Habakkuk => 34,
            Book::Zephaniah => 35,
            Book::Haggai => 36,
            Book::Zechariah => 37,
            Book::Malachi => 38,
            Book::Matthew => 39,
            Book::Mark => 40,
            Book::Luke => 41,
            Book::John => 42,
            Book::Acts => 43,
            Book::Romans => 44,
            Book::Corinthians1 => 45,
            Book::Corinthians2 => 46,
            Book::Galatians => 47,
            Book::Ephesians => 48,
            Book::Philippians => 49,
            Book::Colossians => 50,
            Book::Thessalonians1 => 51,
            Book::Thessalonians2 => 52,
            Book::Timothy1 => 53,
            Book::Timothy2 => 54,
            Book::Titus => 55,
            Book::Philemon => 56,
            Book::Hebrews => 57,
            Book::James => 58,
            Book::Peter1 => 59,
            Book::Peter2 => 60,
            Book::John1 => 61,
            Book::John2 => 62,
            Book::John3 => 63,
            Book::Jude => 64,
            Book::Revelation => 65,
        }
    }

    /// The book with the given ordinal, or `None` when the ordinal is
    /// not one of 0 through 65.
    pub fn try_from_order(o: u8) -> (r: Option<Book>)
        ensures
            r == if o <= 65 { Some(spec_book_from_order(o as int)) } else { None::<Book> },
    {
        match o {
            0 => Some(Book::Genesis),
            1 => Some(Book::Exodus),
            2 => Some(Book::Leviticus),
            3 => Some(Book::Numbers),
            4 => Some(Book::Deuteronomy),
            5 => Some(Book::Joshua),
            6 => Some(Book::Judges),
            7 => Some(Book::Ruth),
            8 => Some(Book::Samuel1),
            9 => Some(Book::Samuel2),
            10 => Some(Book::Kings1),
            11 => Some(Book::Kings2),
            12 => Some(Book::Chronicles1),
            13 => Some(Book::Chronicles2),
            14 => Some(Book::Ezra),
            15 => Some(Book::Nehemiah),
            16 => Some(Book::Esther),
            17 => Some(Book::Job),
            18 => Some(Book::Psalms),
            19 => Some(Book::Proverbs),
            20 => Some(Book::Ecclesiastes),
            21 => Some(Book::SongOfSolomon),
            22 => Some(Book::Isaiah),
            23 => Some(Book::Jeremiah),
            24 => Some(Book::Lamentations),
            25 => Some(Book::Ezekiel),
            26 => Some(Book::Daniel),
            27 => Some(Book::Hosea),
            28 => Some(Book::Joel),
            29 => Some(Book::Amos),
            30 => Some(Book::Obadiah),
            31 => Some(Book::Jonah),
            32 => Some(Book::Micah),
            33 => Some(Book::Nahum),
            34 => Some(Book::Habakkuk),
            35 => Some(Book::Zephaniah),
            36 => Some(Book::Haggai),
            37 => Some(Book::Zechariah),
            38 => Some(Book::Malachi),
            39 => Some(Book::Matthew),
            40 => Some(Book::Mark),
            41 => Some(Book::Luke),
            42 => Some(Book::John),
            43 => Some(Book::Acts),
            44 => Some(Book::Romans),
            45 => Some(Book::Corinthians1),
            46 => Some(Book::Corinthians2),
            47 => Some(Book::Galatians),
            48 => Some(Book::Ephesians),
            49 => Some(Book::Philippians),
            50 => Some(Book::Colossians),
            51 => Some(Book::Thessalonians1),
            52 => Some(Book::Thessalonians2),
            53 => Some(Book::Timothy1),
            54 => Some(Book::Timothy2),
            55 => Some(Book::Titus),
            56 => Some(Book::Philemon),
            57 => Some(Book::Hebrews),
            58 => Some(Book::James),
            59 => Some(Book::Peter1),
            60 => Some(Book::Peter2),
            61 => Some(Book::John1),
            62 => Some(Book::John2),
            63 => Some(Book::John3),
            64 => Some(Book::Jude),
            65 => Some(Book::Revelation),
            _ => None,
        }
    }

    /// The canonical display name of this book.
    pub fn title(self) -> (r: String)
        ensures
            r@ == spec_title(self),
    {
        let t: &str = match self {
            Book::Genesis => "Genesis",
            Book::Exodus => "Exodus",
            Book::Leviticus => "Leviticus",
            Book::Numbers => "Numeri",
            Book::Deuteronomy => "Deuteronomium",
            Book::Joshua => "Jozue",
            Book::Judges => "Soudců",
            Book::Ruth => "Rút",
            Book::Samuel1 => "1. Samuelova",
            Book::Samuel2 => "2. Samuelova",
            Book::Kings1 => "1. Královská",
            Book::Kings2 => "2. Královská",
            Book::Chronicles1 => "1. Paralipomenon",
            Book::Chronicles2 => "2. Paralipomenon",
            Book::Ezra => "Ezdráš",
            Book::Nehemiah => "Nehemjáš",
            Book::Esther => "Ester",
            Book::Job => "Jób",
            Book::Psalms => "Žalmy",
            Book::Proverbs => "Přísloví",
            Book::Ecclesiastes => "Kazatel",
            Book::SongOfSolomon => "Píseň písní",
            Book::Isaiah => "Izajáš",
            Book::Jeremiah => "Jeremjáš",
            Book::Lamentations => "Pláč",
            Book::Ezekiel => "Ezechiel",
            Book::Daniel => "Daniel",
            Book::Hosea => "Ozeáš",
            Book::Joel => "Jóel",
            Book::Amos => "Ámos",
            Book::Obadiah => "Abdijáš",
            Book::Jonah => "Jonáš",
            Book::Micah => "Micheáš",
            Book::Nahum => "Nahum",
            Book::Habakkuk => "Abakuk",
            Book::Zephaniah => "Sofonjáš",
            Book::Haggai => "Ageus",
            Book::Zechariah => "Zacharjáš",
            Book::Malachi => "Malachiáš",
            Book::Matthew => "Matouš",
            Book::Mark => "Marek",
            Book::Luke => "Lukáš",
            Book::John => "Jan",
            Book::Acts => "Skutky",
            Book::Romans => "Římanům",
            Book::Corinthians1 => "1. Korintským",
            Book::Corinthians2 => "2. Korintským",
            Book::Galatians => "Galatským",
            Book::Ephesians => "Efezským",
            Book::Philippians => "Filipským",
            Book::Colossians => "Koloským",
            Book::Thessalonians1 => "1. Tesalonickým",
            Book::Thessalonians2 => "2. Tesalonickým",
            Book::Timothy1 => "1. Timoteovi",
            Book::Timothy2 => "2. Timoteovi",
            Book::Titus => "Titovi",
            Book::Philemon => "Filemonovi",
            Book::Hebrews => "Židům",
            Book::James => "Jakub",
            Book::Peter1 => "1. Petrova",
            Book::Peter2 => "2. Petrova",
            Book::John1 => "1. Janova",
            Book::John2 => "2. Janova",
            Book::John3 => "3. Janova",
            Book::Jude => "Juda",
            Book::Revelation => "Zjevení",
        };
        t.to_owned()
    }
}

/// The canonical display name of a book.
pub open spec fn spec_title(b: Book) -> Seq<char> {
    match b {
        Book::Genesis => "Genesis"@,
        Book::Exodus => "Exodus"@,
        Book::Leviticus => "Leviticus"@,
        Book::Numbers => "Numeri"@,
        Book::Deuteronomy => "Deuteronomium"@,
        Book::Joshua => "Jozue"@,
        Book::Judges => "Soudců"@,
        Book::Ruth => "Rút"@,
        Book::Samuel1 => "1. Samuelova"@,
        Book::Samuel2 => "2. Samuelova"@,
        Book::Kings1 => "1. Královská"@,
        Book::Kings2 => "2. Královská"@,
        Book::Chronicles1 => "1. Paralipomenon"@,
        Book::Chronicles2 => "2. Paralipomenon"@,
        Book::Ezra => "Ezdráš"@,
        Book::Nehemiah => "Nehemjáš"@,
        Book::Esther => "Ester"@,
        Book::Job => "Jób"@,
        Book::Psalms => "Žalmy"@,
        Book::Proverbs => "Přísloví"@,
        Book::Ecclesiastes => "Kazatel"@,
        Book::SongOfSolomon => "Píseň písní"@,
        Book::Isaiah => "Izajáš"@,
        Book::Jeremiah => "Jeremjáš"@,
        Book::Lamentations => "Pláč"@,
        Book::Ezekiel => "Ezechiel"@,
        Book::Daniel => "Daniel"@,
        Book::Hosea => "Ozeáš"@,
        Book::Joel => "Jóel"@,
        Book::Amos => "Ámos"@,
        Book::Obadiah => "Abdijáš"@,
        Book::Jonah => "Jonáš"@,
        Book::Micah => "Micheáš"@,
        Book::Nahum => "Nahum"@,
        Book::Habakkuk => "Abakuk"@,
        Book::Zephaniah => "Sofonjáš"@,
        Book::Haggai => "Ageus"@,
        Book::Zechariah => "Zacharjáš"@,
        Book::Malachi => "Malachiáš"@,
        Book::Matthew => "Matouš"@,
        Book::Mark => "Marek"@,
        Book::Luke => "Lukáš"@,
        Book::John => "Jan"@,
        Book::Acts => "Skutky"@,
        Book::Romans => "Římanům"@,
        Book::Corinthians1 => "1. Korintským"@,
        Book::Corinthians2 => "2. Korintským"@,
        Book::Galatians => "Galatským"@,
        Book::Ephesians => "Efezským"@,
        Book::Philippians => "Filipským"@,
        Book::Colossians => "Koloským"@,
        Book::Thessalonians1 => "1. Tesalonickým"@,
        Book::Thessalonians2 => "2. Tesalonickým"@,
        Book::Timothy1 => "1. Timoteovi"@,
        Book::Timothy2 => "2. Timoteovi"@,
        Book::Titus => "Titovi"@,
        Book::Philemon => "Filemonovi"@,
        Book::Hebrews => "Židům"@,
        Book::James => "Jakub"@,
        Book::Peter1 => "1. Petrova"@,
        Book::Peter2 => "2. Petrova"@,
        Book::John1 => "1. Janova"@,
        Book::John2 => "2. Janova"@,
        Book::John3 => "3. Janova"@,
        Book::Jude => "Juda"@,
        Book::Revelation => "Zjevení"@,
    }
}

/// Converting the ordinal back to a book recovers the book; hence
/// ordinals are distinct across books.
pub proof fn lemma_book_order_roundtrip(b: Book)
    ensures
        spec_book_from_order(spec_book_order(b)) == b,
        0 <= spec_book_order(b) <= 65,
{
}

/// Distinct books never share an ordinal.
pub proof fn lemma_book_order_injective(a: Book, b: Book)
    ensures
        spec_book_order(a) == spec_book_order(b) ==> a == b,
{
    lemma_book_order_roundtrip(a);
    lemma_book_order_roundtrip(b);
}

/// Source files of imported texts number the books 1 through 66; the
/// canonical ordinal is that number less one.
pub fn book_number_to_order(number: u32) -> (r: u32)
    requires
        number >= 1,
    ensures
        r == number - 1,
{
    number - 1
}

/// Maps a book number of an imported text (1 through 66) to the canonical
/// ordinal and the canonical display name; any other number is rejected.
pub fn book_number_to_order_and_name(number: u32) -> (r: Result<(u32, String), DataError>)
    ensures
        1 <= number <= 66 <==> r is Ok,
        r matches Ok(p) ==> {
            &&& p.0 == number - 1
            &&& p.1@ == spec_title(spec_book_from_order(number - 1))
        },
        r matches Err(e) ==> e.spec_kind() == ErrorKind::Validation,
{
    if number >= 1 && number <= 66 {
        let order = number - 1;
        let book = match Book::try_from_order(order as u8) {
            Some(b) => b,
            None => { proof { assert(false); } Book::Genesis },
        };
        Ok((order, book.title()))
    } else {
        Err(DataError::new(ErrorKind::Validation, "Nevalidní číslo knihy"))
    }
}

} // verus!
