//! Small text helpers: verified character-level string utilities, and the
//! few text questions (Unicode case folding and character classes) that
//! are delegated to the standard library.

use vstd::prelude::*;
use vstd::string::{StrSliceExecFns, StringExecFns};

verus! {

/// Whether two string slices hold the same characters.
pub fn str_eq(a: &str, b: &str) -> (r: bool)
    ensures
        r == (a@ == b@),
{
    let alen = a.unicode_len();
    let blen = b.unicode_len();
    if alen != blen {
        proof {
            assert(a@ != b@) by {
                if a@ == b@ {
                    assert(a@.len() == b@.len());
                }
            }
        }
        return false;
    }
    let mut i: usize = 0;
    while i < alen
        invariant
            alen == a@.len(),
            blen == b@.len(),
            alen == blen,
            i <= alen,
            forall|j: int| 0 <= j < i ==> a@[j] == b@[j],
        decreases alen - i,
    {
        let ca = a.get_char(i);
        let cb = b.get_char(i);
        if ca != cb {
            proof {
                assert(a@ != b@) by {
                    if a@ == b@ {
                        assert(a@[i as int] == b@[i as int]);
                    }
                }
            }
            return false;
        }
        i += 1;
    }
    proof {
        assert(a@ =~= b@);
    }
    true
}

/// What `str::to_lowercase` returns; a function of the characters alone.
pub uninterp spec fn lower_of(s: Seq<char>) -> Seq<char>;

/// Relies on `str::to_lowercase`: the Unicode lowercase form of `s`,
/// which depends on the characters of `s` alone; an empty string stays
/// empty.
#[verifier::external_body]
pub fn lowercase(s: &str) -> (r: String)
    ensures
        r@ == lower_of(s@),
        s@.len() == 0 ==> r@.len() == 0,
{
    s.to_lowercase()
}

/// What `char::is_whitespace` returns for a character.
pub uninterp spec fn spec_is_whitespace(c: char) -> bool;

/// Relies on `char::is_whitespace`: whether `c` has the Unicode
/// whitespace property; a space, a line feed, a carriage return and a tab
/// all do.
#[verifier::external_body]
pub fn is_whitespace_char(c: char) -> (r: bool)
    ensures
        r == spec_is_whitespace(c),
        c == ' ' || c == '\n' || c == '\r' || c == '\t' ==> r,
{
    c.is_whitespace()
}

/// What `char::is_alphabetic` returns for a character.
pub uninterp spec fn spec_is_alphabetic(c: char) -> bool;

/// Relies on `char::is_alphabetic`: whether `c` has the Unicode
/// alphabetic property.
#[verifier::external_body]
pub fn is_alphabetic_char(c: char) -> (r: bool)
    ensures
        r == spec_is_alphabetic(c),
{
    c.is_alphabetic()
}

/// The decimal digit character for `d`, which callers keep below 10.
pub open spec fn spec_digit_char(d: int) -> char {
    if d == 0 {
        '0'
    } else if d == 1 {
        '1'
    } else if d == 2 {
        '2'
    } else if d == 3 {
        '3'
    } else if d == 4 {
        '4'
    } else if d == 5 {
        '5'
    } else if d == 6 {
        '6'
    } else if d == 7 {
        '7'
    } else if d == 8 {
        '8'
    } else {
        '9'
    }
}

/// The decimal notation of `n`: one, two or three digit characters,
/// without leading zeroes.
pub open spec fn spec_u8_str(n: u8) -> Seq<char> {
    if n < 10 {
        seq![spec_digit_char(n as int)]
    } else if n < 100 {
        seq![spec_digit_char(n as int / 10), spec_digit_char(n as int % 10)]
    } else {
        seq![
            spec_digit_char(n as int / 100),
            spec_digit_char((n as int / 10) % 10),
            spec_digit_char(n as int % 10),
        ]
    }
}

/// The decimal digit, as a one-character string, for `d`.
fn digit_str(d: u8) -> (r: &'static str)
    requires
        d < 10,
    ensures
        r@ =~= seq![spec_digit_char(d as int)],
{
    proof {
        reveal_strlit("0");
        reveal_strlit("1");
        reveal_strlit("2");
        reveal_strlit("3");
        reveal_strlit("4");
        reveal_strlit("5");
        reveal_strlit("6");
        reveal_strlit("7");
        reveal_strlit("8");
        reveal_strlit("9");
    }
    match d {
        0 => "0",
        1 => "1",
        2 => "2",
        3 => "3",
        4 => "4",
        5 => "5",
        6 => "6",
        7 => "7",
        8 => "8",
        _ => "9",
    }
}

/// Writes `n` in decimal notation.
pub fn u8_to_string(n: u8) -> (r: String)
    ensures
        r@ == spec_u8_str(n),
{
    let mut r = String::new();
    if n < 10 {
        r.append(digit_str(n));
        proof {
            assert(r@ =~= spec_u8_str(n));
        }
    } else if n < 100 {
        r.append(digit_str(n / 10));
        r.append(digit_str(n % 10));
        proof {
            assert(r@ =~= spec_u8_str(n));
        }
    } else {
        r.append(digit_str(n / 100));
        r.append(digit_str((n / 10) % 10));
        r.append(digit_str(n % 10));
        proof {
            assert(r@ =~= spec_u8_str(n));
        }
    }
    r
}


/// The views of a vector of strings.
pub open spec fn spec_views(v: Seq<String>) -> Seq<Seq<char>> {
    v.map_values(|l: String| l@)
}

/// The index of the first line feed in `s`, or `s.len()` when there is
/// none.
pub open spec fn spec_first_nl(s: Seq<char>) -> int
    decreases s.len(),
{
    if s.len() == 0 {
        0
    } else if s[0] == '\n' {
        0
    } else {
        1 + spec_first_nl(s.skip(1))
    }
}

/// `spec_first_nl` is the unique index with no line feed before it that
/// either sits on a line feed or is the length.
pub proof fn lemma_first_nl_characterized(u: Seq<char>, j: int)
    requires
        0 <= j <= u.len(),
        forall|k: int| 0 <= k < j ==> u[k] != '\n',
        j < u.len() ==> u[j] == '\n',
    ensures
        spec_first_nl(u) == j,
    decreases u.len(),
{
    if u.len() == 0 {
    } else if u[0] == '\n' {
        assert(j == 0);
    } else {
        assert(j >= 1);
        lemma_first_nl_characterized(u.skip(1), j - 1);
    }
}

/// A line with its trailing carriage return removed, when it has one:
/// line endings may be a line feed or a carriage return plus line feed.
pub open spec fn spec_strip_cr(l: Seq<char>) -> Seq<char> {
    if l.len() > 0 && l[l.len() - 1] == '\r' {
        l.drop_last()
    } else {
        l
    }
}

/// The lines of `s`: split at every line feed, each line with a trailing
/// carriage return removed. A final line ending is optional; text after
/// the last line feed is one more line, kept as it stands. The empty
/// text has no lines.
pub open spec fn spec_split_lines(s: Seq<char>) -> Seq<Seq<char>>
    decreases s.len(),
    via split_lines_decreases
{
    if s.len() == 0 {
        Seq::empty()
    } else {
        let i = spec_first_nl(s);
        if i == s.len() {
            seq![s]
        } else {
            seq![spec_strip_cr(s.take(i))] + spec_split_lines(s.skip(i + 1))
        }
    }
}

#[via_fn]
proof fn split_lines_decreases(s: Seq<char>) {
    lemma_first_nl_bounds(s);
}

/// The first-line-feed index lies between 0 and the length.
pub proof fn lemma_first_nl_bounds(s: Seq<char>)
    ensures
        0 <= spec_first_nl(s) <= s.len(),
        spec_first_nl(s) < s.len() ==> s[spec_first_nl(s)] == '\n',
        forall|k: int| 0 <= k < spec_first_nl(s) ==> s[k] != '\n',
    decreases s.len(),
{
    if s.len() == 0 {
    } else if s[0] == '\n' {
    } else {
        lemma_first_nl_bounds(s.skip(1));
        assert forall|k: int| 0 <= k < spec_first_nl(s) implies s[k] != '\n' by {
            if k > 0 {
                assert(s.skip(1)[k - 1] != '\n');
            }
        }
    }
}

/// The lines of `s`, as [`spec_split_lines`] lists them.
pub fn lines_vec(s: &str) -> (r: Vec<String>)
    ensures
        spec_views(r@) == spec_split_lines(s@),
{
    let n = s.unicode_len();
    let mut r: Vec<String> = Vec::new();
    let mut pos: usize = 0;
    proof {
        assert(s@.skip(0) =~= s@);
        assert(spec_views(r@) =~= Seq::<Seq<char>>::empty());
        assert(spec_views(r@) + spec_split_lines(s@) =~= spec_split_lines(s@));
    }
    while pos < n
        invariant
            n == s@.len(),
            pos <= n,
            spec_split_lines(s@) == spec_views(r@) + spec_split_lines(s@.skip(pos as int)),
        decreases n - pos,
    {
        let ghost u = s@.skip(pos as int);
        let mut j: usize = pos;
        while j < n && !char_is_nl(s.get_char(j))
            invariant
                n == s@.len(),
                pos <= j <= n,
                forall|k: int| pos <= k < j ==> s@[k] != '\n',
            decreases n - j,
        {
            j += 1;
        }
        proof {
            assert(forall|k: int| 0 <= k < j - pos ==> u[k] != '\n');
            lemma_first_nl_characterized(u, j - pos);
        }
        if j < n {
            let end = if j > pos && s.get_char(j - 1) == '\r' {
                j - 1
            } else {
                j
            };
            let line = s.substring_char(pos, end).to_owned();
            proof {
                assert(u.take(j - pos) =~= s@.subrange(pos as int, j as int));
                assert(spec_strip_cr(u.take(j - pos)) =~= s@.subrange(pos as int, end as int));
                assert(u.skip(j - pos + 1) =~= s@.skip(j + 1));
                assert(spec_views(r@.push(line)) =~= spec_views(r@).push(line@));
                assert(spec_views(r@) + spec_split_lines(u) =~= spec_views(r@.push(line))
                    + spec_split_lines(s@.skip(j + 1)));
            }
            r.push(line);
            pos = j + 1;
        } else {
            let line = s.substring_char(pos, n).to_owned();
            proof {
                assert(u =~= s@.subrange(pos as int, n as int));
                assert(spec_split_lines(u) =~= seq![u]);
                assert(spec_views(r@.push(line)) =~= spec_views(r@).push(line@));
                assert(u.skip(n - pos) =~= s@.skip(n as int));
                assert(spec_views(r@) + spec_split_lines(u) =~= spec_views(r@.push(line))
                    + spec_split_lines(s@.skip(n as int)));
            }
            r.push(line);
            pos = n;
        }
    }
    proof {
        assert(s@.skip(pos as int) =~= Seq::<char>::empty());
        assert(spec_split_lines(s@.skip(pos as int)) =~= Seq::<Seq<char>>::empty());
        assert(spec_views(r@) =~= spec_views(r@) + spec_split_lines(s@.skip(pos as int)));
    }
    r
}

/// Whether `c` is the line feed character.
fn char_is_nl(c: char) -> (r: bool)
    ensures
        r == (c == '\n'),
{
    c == '\n'
}

/// `s` without leading and trailing whitespace, taking one whitespace
/// character at a time.
pub open spec fn spec_trim(s: Seq<char>) -> Seq<char>
    decreases s.len(),
{
    if s.len() == 0 {
        s
    } else if spec_is_whitespace(s[0]) {
        spec_trim(s.skip(1))
    } else if spec_is_whitespace(s[s.len() - 1]) {
        spec_trim(s.drop_last())
    } else {
        s
    }
}

/// `spec_trim` keeps exactly the span from the first non-whitespace
/// character through the last one.
proof fn lemma_trim_span(s: Seq<char>, lo: int, hi: int)
    requires
        0 <= lo <= hi <= s.len(),
        forall|k: int| 0 <= k < lo ==> spec_is_whitespace(s[k]),
        forall|k: int| hi <= k < s.len() ==> spec_is_whitespace(s[k]),
        lo < hi ==> !spec_is_whitespace(s[lo]),
        lo < hi ==> !spec_is_whitespace(s[hi - 1]),
    ensures
        spec_trim(s) == s.subrange(lo, hi),
    decreases s.len(),
{
    if s.len() == 0 {
        assert(s.subrange(lo, hi) =~= s);
    } else if spec_is_whitespace(s[0]) {
        assert(lo == hi || lo > 0);
        if lo == hi {
            lemma_trim_span(s.skip(1), 0, 0);
            assert(s.subrange(lo, hi) =~= s.skip(1).subrange(0, 0));
        } else {
            lemma_trim_span(s.skip(1), lo - 1, hi - 1);
            assert(s.subrange(lo, hi) =~= s.skip(1).subrange(lo - 1, hi - 1));
        }
    } else if spec_is_whitespace(s[s.len() - 1]) {
        assert(hi < s.len() || (lo == hi && lo == 0));
        if lo == hi {
            lemma_trim_span(s.drop_last(), 0, 0);
            assert(s.subrange(lo, hi) =~= s.drop_last().subrange(0, 0));
        } else {
            lemma_trim_span(s.drop_last(), lo, hi);
            assert(s.subrange(lo, hi) =~= s.drop_last().subrange(lo, hi));
        }
    } else {
        assert(lo == 0 && hi == s.len());
        assert(s.subrange(lo, hi) =~= s);
    }
}

/// `s` without leading and trailing whitespace.
pub fn trim_str(s: &str) -> (r: String)
    ensures
        r@ == spec_trim(s@),
{
    let n = s.unicode_len();
    let mut lo: usize = 0;
    while lo < n && is_whitespace_char(s.get_char(lo))
        invariant
            n == s@.len(),
            lo <= n,
            forall|k: int| 0 <= k < lo ==> spec_is_whitespace(s@[k]),
        decreases n - lo,
    {
        lo += 1;
    }
    let mut hi: usize = n;
    if lo == n {
        proof {
            lemma_trim_span(s@, n as int, n as int);
        }
        let r = s.substring_char(n, n).to_owned();
        proof {
            assert(r@ =~= s@.subrange(n as int, n as int));
        }
        return r;
    }
    while hi > lo && is_whitespace_char(s.get_char(hi - 1))
        invariant
            n == s@.len(),
            lo <= hi <= n,
            forall|k: int| hi <= k < n ==> spec_is_whitespace(s@[k]),
        decreases hi,
    {
        hi -= 1;
    }
    proof {
        assert(!spec_is_whitespace(s@[lo as int]));
        assert(lo < hi);
        lemma_trim_span(s@, lo as int, hi as int);
    }
    s.substring_char(lo, hi).to_owned()
}

/// The segments of `s` between space characters: every space splits, so
/// consecutive spaces yield empty segments, and the empty text is one
/// empty segment.
pub open spec fn spec_split_spaces(s: Seq<char>) -> Seq<Seq<char>>
    decreases s.len(),
    via split_spaces_decreases
{
    let i = spec_first_space(s);
    if i == s.len() {
        seq![s]
    } else {
        seq![s.take(i)] + spec_split_spaces(s.skip(i + 1))
    }
}

#[via_fn]
proof fn split_spaces_decreases(s: Seq<char>) {
    lemma_first_space_bounds(s);
}

/// The index of the first space in `s`, or `s.len()` when there is none.
pub open spec fn spec_first_space(s: Seq<char>) -> int
    decreases s.len(),
{
    if s.len() == 0 {
        0
    } else if s[0] == ' ' {
        0
    } else {
        1 + spec_first_space(s.skip(1))
    }
}

/// The first-space index lies between 0 and the length.
proof fn lemma_first_space_bounds(s: Seq<char>)
    ensures
        0 <= spec_first_space(s) <= s.len(),
    decreases s.len(),
{
    if s.len() == 0 {
    } else if s[0] == ' ' {
    } else {
        lemma_first_space_bounds(s.skip(1));
    }
}

/// `spec_first_space` is the unique index with no space before it that
/// either sits on a space or is the length.
proof fn lemma_first_space_characterized(u: Seq<char>, j: int)
    requires
        0 <= j <= u.len(),
        forall|k: int| 0 <= k < j ==> u[k] != ' ',
        j < u.len() ==> u[j] == ' ',
    ensures
        spec_first_space(u) == j,
    decreases u.len(),
{
    if u.len() == 0 {
    } else if u[0] == ' ' {
        assert(j == 0);
    } else {
        assert(j >= 1);
        lemma_first_space_characterized(u.skip(1), j - 1);
    }
}

/// The segments of `s` between spaces, as [`spec_split_spaces`] lists
/// them.
pub fn split_spaces(s: &str) -> (r: Vec<String>)
    ensures
        spec_views(r@) == spec_split_spaces(s@),
{
    let n = s.unicode_len();
    let mut r: Vec<String> = Vec::new();
    let mut pos: usize = 0;
    proof {
        assert(s@.skip(0) =~= s@);
        assert(spec_views(r@) =~= Seq::<Seq<char>>::empty());
        assert(spec_views(r@) + spec_split_spaces(s@) =~= spec_split_spaces(s@));
    }
    loop
        invariant
            n == s@.len(),
            pos <= n,
            spec_split_spaces(s@) == spec_views(r@) + spec_split_spaces(s@.skip(pos as int)),
        decreases n + 1 - pos,
    {
        let ghost u = s@.skip(pos as int);
        let mut j: usize = pos;
        while j < n && !char_is_space(s.get_char(j))
            invariant
                n == s@.len(),
                pos <= j <= n,
                forall|k: int| pos <= k < j ==> s@[k] != ' ',
            decreases n - j,
        {
            j += 1;
        }
        proof {
            assert(forall|k: int| 0 <= k < j - pos ==> u[k] != ' ');
            lemma_first_space_characterized(u, j - pos);
        }
        let line = s.substring_char(pos, j).to_owned();
        proof {
            assert(u.take(j - pos) =~= s@.subrange(pos as int, j as int));
            assert(spec_views(r@.push(line)) =~= spec_views(r@).push(line@));
        }
        if j < n {
            proof {
                assert(u.skip(j - pos + 1) =~= s@.skip(j + 1));
                assert(spec_views(r@) + spec_split_spaces(u) =~= spec_views(r@.push(line))
                    + spec_split_spaces(s@.skip(j + 1)));
            }
            r.push(line);
            pos = j + 1;
        } else {
            proof {
                assert(u =~= s@.subrange(pos as int, n as int));
                assert(spec_split_spaces(u) =~= seq![u]);
                assert(spec_views(r@) + spec_split_spaces(u) =~= spec_views(r@.push(line)));
            }
            r.push(line);
            return r;
        }
    }
}

/// Whether `c` is the space character.
fn char_is_space(c: char) -> (r: bool)
    ensures
        r == (c == ' '),
{
    c == ' '
}

} // verus!
