//! Songs: a title, an optional author, the parts addressed by tags, and
//! the order in which parts are presented (a part may repeat).
//!
//! Lyrics arrive as marked-up text: `[TAG]` separators open parts, lines
//! starting with a full stop carry guitar chords and are dropped. Two
//! readers of that text live here — [`split_into_parts`], which flattens
//! each part to one line, and [`parse_lyrics`], which keeps the line
//! breaks — together with the song invariants: the order must use
//! exactly the tags the parts define, and tags carry no space.

use vstd::prelude::*;
use vstd::string::{StrSliceExecFns, StringExecFns};
use crate::error::{DataError, ErrorKind};
use crate::text::{
    str_eq, spec_views, spec_split_lines, spec_split_spaces, spec_trim, lines_vec, trim_str,
    split_spaces,
};

verus! {

/// A tag addressing one part of a song, such as a verse or chorus mark.
pub type PartTag = String;

/// A song: title, optional author, the parts addressed by tag, and the
/// presentation order of the tags.
#[derive(Debug, PartialEq)]
pub struct Song {
    /// The song's title.
    pub title: String,
    /// The song's author, when the source names one.
    pub author: Option<String>,
    /// The parts, each a tag with its text, in the order the source
    /// wrote them.
    pub parts: Vec<(PartTag, String)>,
    /// The order in which the parts are presented; one part may appear
    /// several times.
    pub order: Vec<PartTag>,
}

/// The tags of the parts, in order.
pub open spec fn spec_part_tags(parts: Seq<(PartTag, String)>) -> Seq<Seq<char>> {
    parts.map_values(|p: (PartTag, String)| p.0@)
}

/// Whether some tag of the list is `t`.
pub open spec fn spec_tags_contain(tags: Seq<Seq<char>>, t: Seq<char>) -> bool {
    exists|j: int| 0 <= j < tags.len() && tags[j] == t
}

/// Whether every tag of `a` appears in `b` and every tag of `b` appears
/// in `a`: the two lists name the same set of tags.
pub open spec fn spec_same_tag_sets(a: Seq<Seq<char>>, b: Seq<Seq<char>>) -> bool {
    &&& forall|j: int| 0 <= j < a.len() ==> spec_tags_contain(b, #[trigger] a[j])
    &&& forall|j: int| 0 <= j < b.len() ==> spec_tags_contain(a, #[trigger] b[j])
}

/// Whether the tag holds a space character.
pub open spec fn spec_has_space(t: Seq<char>) -> bool {
    exists|i: int| 0 <= i < t.len() && t[i] == ' '
}

impl Song {
    /// Checks the song's invariants: the order and the parts name the
    /// same set of tags, and no part tag holds a space. Succeeds exactly
    /// when both hold; a violation is a validation error whose message
    /// names the broken rule.
    pub fn check_invariants(&self) -> (r: Result<(), DataError>)
        ensures
            r is Ok <==> {
                &&& spec_same_tag_sets(spec_views(self.order@), spec_part_tags(self.parts@))
                &&& forall|j: int|
                    0 <= j < self.parts@.len() ==> !spec_has_space(
                        (#[trigger] self.parts@[j]).0@,
                    )
            },
            r matches Err(e) ==> e.spec_kind() == ErrorKind::Validation,
    {
        if !self.tag_sets_match() {
            let mut message = "Píseň ".to_owned();
            message.append(self.title.as_str());
            message.append(" má odlišné tagy ve slovech a v pořadí");
            return Err(DataError::from_string(ErrorKind::Validation, message));
        }
        let mut j: usize = 0;
        while j < self.parts.len()
            invariant
                j <= self.parts@.len(),
                forall|k: int| 0 <= k < j ==> !spec_has_space((#[trigger] self.parts@[k]).0@),
            decreases self.parts@.len() - j,
        {
            if has_space(self.parts[j].0.as_str()) {
                let mut message = "Píseň ".to_owned();
                message.append(self.title.as_str());
                message.append(" obsahuje tag s mezerou '");
                message.append(self.parts[j].0.as_str());
                message.append("'");
                return Err(DataError::from_string(ErrorKind::Validation, message));
            }
            j += 1;
        }
        Ok(())
    }

    /// Checks that every tag of the order names a part the song has.
    /// Succeeds exactly when the order lists known tags only.
    pub fn check_order_validity(&self) -> (r: Result<(), DataError>)
        ensures
            r is Ok <==> forall|j: int|
                0 <= j < self.order@.len() ==> spec_tags_contain(
                    spec_part_tags(self.parts@),
                    (#[trigger] self.order@[j])@,
                ),
            r matches Err(e) ==> e.spec_kind() == ErrorKind::Validation,
    {
        let mut j: usize = 0;
        while j < self.order.len()
            invariant
                j <= self.order@.len(),
                forall|k: int|
                    0 <= k < j ==> spec_tags_contain(
                        spec_part_tags(self.parts@),
                        (#[trigger] self.order@[k])@,
                    ),
            decreases self.order@.len() - j,
        {
            if !parts_contain(&self.parts, self.order[j].as_str()) {
                let mut message = "Píseň ".to_owned();
                message.append(self.title.as_str());
                message.append(" má v pořadí tag, který ve slovech neobsahuje: ");
                message.append(self.order[j].as_str());
                return Err(DataError::from_string(ErrorKind::Validation, message));
            }
            j += 1;
        }
        Ok(())
    }

    /// Whether the order and the parts name the same set of tags.
    fn tag_sets_match(&self) -> (r: bool)
        ensures
            r == spec_same_tag_sets(spec_views(self.order@), spec_part_tags(self.parts@)),
    {
        let mut j: usize = 0;
        while j < self.order.len()
            invariant
                j <= self.order@.len(),
                forall|k: int|
                    0 <= k < j ==> spec_tags_contain(
                        spec_part_tags(self.parts@),
                        (#[trigger] self.order@[k])@,
                    ),
            decreases self.order@.len() - j,
        {
            if !parts_contain(&self.parts, self.order[j].as_str()) {
                proof {
                    assert(spec_views(self.order@)[j as int] == self.order@[j as int]@);
                }
                return false;
            }
            j += 1;
        }
        let mut k: usize = 0;
        while k < self.parts.len()
            invariant
                k <= self.parts@.len(),
                forall|m: int|
                    0 <= m < k ==> spec_tags_contain(
                        spec_views(self.order@),
                        (#[trigger] self.parts@[m]).0@,
                    ),
                forall|m: int|
                    0 <= m < self.order@.len() ==> spec_tags_contain(
                        spec_part_tags(self.parts@),
                        (#[trigger] self.order@[m])@,
                    ),
            decreases self.parts@.len() - k,
        {
            if !order_contains(&self.order, self.parts[k].0.as_str()) {
                proof {
                    assert(spec_part_tags(self.parts@)[k as int] == self.parts@[k as int].0@);
                }
                return false;
            }
            k += 1;
        }
        true
    }
}

/// Whether some part's tag is `t`.
fn parts_contain(parts: &Vec<(PartTag, String)>, t: &str) -> (r: bool)
    ensures
        r == spec_tags_contain(spec_part_tags(parts@), t@),
{
    let mut j: usize = 0;
    while j < parts.len()
        invariant
            j <= parts@.len(),
            forall|k: int| 0 <= k < j ==> (#[trigger] parts@[k]).0@ != t@,
        decreases parts@.len() - j,
    {
        if str_eq(parts[j].0.as_str(), t) {
            proof {
                assert(spec_part_tags(parts@)[j as int] == t@);
            }
            return true;
        }
        j += 1;
    }
    proof {
        assert forall|j: int| 0 <= j < spec_part_tags(parts@).len() implies spec_part_tags(
            parts@,
        )[j] != t@ by {
            assert(parts@[j].0@ != t@);
        }
    }
    false
}

/// Whether some tag of the order is `t`.
fn order_contains(order: &Vec<PartTag>, t: &str) -> (r: bool)
    ensures
        r == spec_tags_contain(spec_views(order@), t@),
{
    let mut j: usize = 0;
    while j < order.len()
        invariant
            j <= order@.len(),
            forall|k: int| 0 <= k < j ==> (#[trigger] order@[k])@ != t@,
        decreases order@.len() - j,
    {
        if str_eq(order[j].as_str(), t) {
            proof {
                assert(spec_views(order@)[j as int] == t@);
            }
            return true;
        }
        j += 1;
    }
    proof {
        assert forall|j: int| 0 <= j < spec_views(order@).len() implies spec_views(order@)[j]
            != t@ by {
            assert(order@[j]@ != t@);
        }
    }
    false
}

/// Whether the string holds a space character.
fn has_space(t: &str) -> (r: bool)
    ensures
        r == spec_has_space(t@),
{
    let n = t.unicode_len();
    let mut i: usize = 0;
    while i < n
        invariant
            n == t@.len(),
            i <= n,
            forall|k: int| 0 <= k < i ==> t@[k] != ' ',
        decreases n - i,
    {
        if t.get_char(i) == ' ' {
            return true;
        }
        i += 1;
    }
    false
}

/// Whether the line carries guitar chords: its first character is a
/// full stop.
pub open spec fn spec_is_chord_line(l: Seq<char>) -> bool {
    l.len() > 0 && l[0] == '.'
}

/// The lines concatenated, chord lines left out.
pub open spec fn spec_cat_without_chords(lines: Seq<Seq<char>>) -> Seq<char>
    decreases lines.len(),
{
    if lines.len() == 0 {
        Seq::empty()
    } else {
        (if spec_is_chord_line(lines[0]) {
            Seq::empty()
        } else {
            lines[0]
        }) + spec_cat_without_chords(lines.skip(1))
    }
}

/// What stripping leaves of `s`: its lines without the chord lines,
/// concatenated without the line breaks.
pub open spec fn spec_stripped(s: Seq<char>) -> Seq<char> {
    spec_cat_without_chords(spec_split_lines(s))
}

/// Removes the chord lines (lines starting with a full stop) and every
/// line break from the lyrics.
pub fn strip_chords_and_newlines(lyrics: &mut String)
    ensures
        final(lyrics)@ == spec_stripped(old(lyrics)@),
{
    let lines = lines_vec(lyrics.as_str());
    let ghost lv = spec_views(lines@);
    let mut out = String::new();
    let mut k: usize = 0;
    proof {
        assert(lv.skip(0) =~= lv);
        assert(out@ + spec_cat_without_chords(lv) =~= spec_cat_without_chords(lv));
    }
    while k < lines.len()
        invariant
            lv == spec_views(lines@),
            k <= lines@.len(),
            spec_stripped(lyrics@) == out@ + spec_cat_without_chords(lv.skip(k as int)),
            lyrics@ == old(lyrics)@,
        decreases lines@.len() - k,
    {
        let ghost rest = lv.skip(k as int);
        proof {
            assert(rest[0] == lv[k as int]);
            assert(rest.skip(1) =~= lv.skip(k + 1));
        }
        let line = &lines[k];
        let chord = line.as_str().unicode_len() > 0 && line.as_str().get_char(0) == '.';
        if !chord {
            out.append(line.as_str());
        }
        k += 1;
    }
    proof {
        assert(lv.skip(lines@.len() as int) =~= Seq::<Seq<char>>::empty());
        assert(spec_cat_without_chords(Seq::<Seq<char>>::empty()) =~= Seq::<char>::empty());
        assert(out@ + Seq::<char>::empty() =~= out@);
    }
    *lyrics = out;
}

/// One step short of the split: what the two-state reader yields from
/// position `i` onwards, given the text gathered so far. `in_tag` says
/// whether the reader stands inside a `[tag]` marker; `lyric` and `tag`
/// hold the text gathered for the pair being built; `acc` holds the
/// finished pairs `(text, tag)`. An opening bracket inside a marker or a
/// closing bracket outside one is a format error, `None`.
pub open spec fn spec_split_parts(
    s: Seq<char>,
    i: int,
    in_tag: bool,
    lyric: Seq<char>,
    tag: Seq<char>,
    acc: Seq<(Seq<char>, Seq<char>)>,
) -> Option<Seq<(Seq<char>, Seq<char>)>>
    decreases s.len() - i,
{
    if i < 0 || i >= s.len() {
        Some(acc.push((spec_trim(lyric), spec_trim(tag))))
    } else if s[i] == '[' {
        if in_tag {
            None
        } else if lyric.len() > 0 && tag.len() > 0 {
            spec_split_parts(
                s,
                i + 1,
                true,
                Seq::empty(),
                Seq::empty(),
                acc.push((spec_trim(lyric), spec_trim(tag))),
            )
        } else {
            spec_split_parts(s, i + 1, true, lyric, tag, acc)
        }
    } else if s[i] == ']' {
        if in_tag {
            spec_split_parts(s, i + 1, false, lyric, tag, acc)
        } else {
            None
        }
    } else if in_tag {
        spec_split_parts(s, i + 1, in_tag, lyric, tag.push(s[i]), acc)
    } else {
        spec_split_parts(s, i + 1, in_tag, lyric.push(s[i]), tag, acc)
    }
}

/// The views of a vector of string pairs.
pub open spec fn spec_pair_views(v: Seq<(String, String)>) -> Seq<(Seq<char>, Seq<char>)> {
    v.map_values(|p: (String, String)| (p.0@, p.1@))
}

/// What the two-state reader yields on the whole text, started fresh.
pub open spec fn spec_split_parts_full(s: Seq<char>) -> Option<Seq<(Seq<char>, Seq<char>)>> {
    spec_split_parts(s, 0, false, Seq::empty(), Seq::empty(), Seq::empty())
}

/// Splits lyrics into `(text, tag)` pairs at the `[tag]` markers, as the
/// two-state reader [`spec_split_parts`] describes: text gathered before
/// the first marker pairs with an empty tag only at the very end, both
/// components are trimmed, and a pair is emitted at each later marker
/// only when text and tag are both non-empty. A nested opening bracket
/// or a stray closing bracket is a validation error.
pub fn split_into_parts(lyrics: &str) -> (r: Result<Vec<(String, PartTag)>, DataError>)
    ensures
        r is Ok <==> spec_split_parts_full(lyrics@) is Some,
        r matches Ok(v) ==> Some(spec_pair_views(v@)) == spec_split_parts_full(lyrics@),
        r matches Err(e) ==> e.spec_kind() == ErrorKind::Validation,
{
    let ghost full = spec_split_parts_full(lyrics@);
    let n = lyrics.unicode_len();
    let mut result: Vec<(String, String)> = Vec::new();
    let mut in_tag = false;
    let mut cur_lyric = String::new();
    let mut cur_tag = String::new();
    let mut pend: usize = 0;
    let mut i: usize = 0;
    proof {
        assert(lyrics@.subrange(0, 0) =~= Seq::<char>::empty());
        assert(spec_pair_views(result@) =~= Seq::<(Seq<char>, Seq<char>)>::empty());
    }
    while i < n
        invariant
            full == spec_split_parts_full(lyrics@),
            n == lyrics@.len(),
            pend <= i <= n,
            !in_tag ==> full == spec_split_parts(
                lyrics@,
                i as int,
                false,
                cur_lyric@ + lyrics@.subrange(pend as int, i as int),
                cur_tag@,
                spec_pair_views(result@),
            ),
            in_tag ==> full == spec_split_parts(
                lyrics@,
                i as int,
                true,
                cur_lyric@,
                cur_tag@ + lyrics@.subrange(pend as int, i as int),
                spec_pair_views(result@),
            ),
        decreases n - i,
    {
        let c = lyrics.get_char(i);
        proof {
            assert(lyrics@.subrange(pend as int, i + 1) =~= lyrics@.subrange(
                pend as int,
                i as int,
            ).push(lyrics@[i as int]));
        }
        if c == '[' {
            if in_tag {
                proof {
                    assert(spec_split_parts(
                        lyrics@,
                        i as int,
                        true,
                        cur_lyric@,
                        cur_tag@ + lyrics@.subrange(pend as int, i as int),
                        spec_pair_views(result@),
                    ) is None);
                }
                return Err(
                    DataError::new(
                        ErrorKind::Validation,
                        "Nesprávný formát tagů, neukončená otevírací závorka",
                    ),
                );
            }
            cur_lyric.append(lyrics.substring_char(pend, i));
            if !cur_lyric.as_str().is_empty() && !cur_tag.as_str().is_empty() {
                let pair = (trim_str(cur_lyric.as_str()), trim_str(cur_tag.as_str()));
                proof {
                    assert(spec_pair_views(result@.push(pair)) =~= spec_pair_views(result@).push(
                        (pair.0@, pair.1@),
                    ));
                }
                result.push(pair);
                cur_lyric = String::new();
                cur_tag = String::new();
            }
            in_tag = true;
            pend = i + 1;
            proof {
                assert(cur_tag@ + lyrics@.subrange(pend as int, pend as int) =~= cur_tag@);
            }
        } else if c == ']' {
            if !in_tag {
                proof {
                    assert(spec_split_parts(
                        lyrics@,
                        i as int,
                        false,
                        cur_lyric@ + lyrics@.subrange(pend as int, i as int),
                        cur_tag@,
                        spec_pair_views(result@),
                    ) is None);
                }
                return Err(
                    DataError::new(
                        ErrorKind::Validation,
                        "Nesprávný formát tagů, přebytečná uzavírací závorka",
                    ),
                );
            }
            cur_tag.append(lyrics.substring_char(pend, i));
            in_tag = false;
            pend = i + 1;
            proof {
                assert(cur_lyric@ + lyrics@.subrange(pend as int, pend as int) =~= cur_lyric@);
            }
        } else {
            // an ordinary character extends the pending span
        }
        i += 1;
    }
    if in_tag {
        cur_tag.append(lyrics.substring_char(pend, n));
    } else {
        cur_lyric.append(lyrics.substring_char(pend, n));
    }
    let pair = (trim_str(cur_lyric.as_str()), trim_str(cur_tag.as_str()));
    proof {
        assert(spec_pair_views(result@.push(pair)) =~= spec_pair_views(result@).push(
            (pair.0@, pair.1@),
        ));
    }
    result.push(pair);
    Ok(result)
}


/// The cleaned lines of lyrics: every line trimmed, chord lines and
/// lines left empty by trimming dropped.
pub open spec fn spec_clean_lines(lines: Seq<Seq<char>>) -> Seq<Seq<char>>
    decreases lines.len(),
{
    if lines.len() == 0 {
        Seq::empty()
    } else {
        let t = spec_trim(lines[0]);
        (if t.len() == 0 || t[0] == '.' {
            Seq::<Seq<char>>::empty()
        } else {
            seq![t]
        }) + spec_clean_lines(lines.skip(1))
    }
}

/// A `[tag]` marker line: bracketed, with a non-empty tag holding no
/// bracket.
pub open spec fn spec_is_tag_line(l: Seq<char>) -> bool {
    &&& l.len() >= 3
    &&& l[0] == '['
    &&& l[l.len() - 1] == ']'
    &&& forall|k: int| 1 <= k < l.len() - 1 ==> l[k] != '[' && l[k] != ']'
}

/// Emits the pair being built, when a tag is open and has gathered any
/// text.
pub open spec fn spec_flush(
    acc: Seq<(Seq<char>, Seq<char>)>,
    cur: Option<(Seq<char>, Seq<char>)>,
) -> Seq<(Seq<char>, Seq<char>)> {
    match cur {
        Some(p) => if p.1.len() > 0 {
            acc.push(p)
        } else {
            acc
        },
        None => acc,
    }
}

/// Groups cleaned lines into `(tag, text)` pairs: a marker line opens a
/// part named by the bracketed tag, the following lines are its text
/// joined with line feeds, lines before the first marker are dropped,
/// and a part without text is dropped too.
pub open spec fn spec_group_lines(
    lines: Seq<Seq<char>>,
    i: int,
    cur: Option<(Seq<char>, Seq<char>)>,
    acc: Seq<(Seq<char>, Seq<char>)>,
) -> Seq<(Seq<char>, Seq<char>)>
    decreases lines.len() - i,
{
    if i < 0 || i >= lines.len() {
        spec_flush(acc, cur)
    } else {
        let l = lines[i];
        if spec_is_tag_line(l) {
            spec_group_lines(
                lines,
                i + 1,
                Some((l.subrange(1, l.len() - 1), Seq::empty())),
                spec_flush(acc, cur),
            )
        } else {
            match cur {
                None => spec_group_lines(lines, i + 1, None::<(Seq<char>, Seq<char>)>, acc),
                Some(p) => spec_group_lines(
                    lines,
                    i + 1,
                    Some(
                        (
                            p.0,
                            if p.1.len() == 0 {
                                l
                            } else {
                                p.1 + seq!['\n'] + l
                            },
                        ),
                    ),
                    acc,
                ),
            }
        }
    }
}

/// The `(tag, text)` pairs that lyrics markup denotes: lines are
/// trimmed, chord and empty lines dropped, and the rest grouped under
/// the `[tag]` marker lines, keeping the line breaks within a part.
pub open spec fn spec_parse_lyrics(raw: Seq<char>) -> Seq<(Seq<char>, Seq<char>)> {
    spec_group_lines(spec_clean_lines(spec_split_lines(raw)), 0, None, Seq::empty())
}

/// Whether the line is a `[tag]` marker line.
fn is_tag_line(l: &str) -> (r: bool)
    ensures
        r == spec_is_tag_line(l@),
{
    let n = l.unicode_len();
    if n < 3 || !(l.get_char(0) == '[') || !(l.get_char(n - 1) == ']') {
        return false;
    }
    let mut k: usize = 1;
    while k < n - 1
        invariant
            n == l@.len(),
            3 <= n,
            1 <= k <= n - 1,
            forall|m: int| 1 <= m < k ==> l@[m] != '[' && l@[m] != ']',
        decreases n - k,
    {
        let c = l.get_char(k);
        if c == '[' || c == ']' {
            return false;
        }
        k += 1;
    }
    true
}

/// The view of the pair being built.
pub open spec fn spec_cur_view(cur_tag: Option<String>, cur_text: Seq<char>) -> Option<
    (Seq<char>, Seq<char>),
> {
    match cur_tag {
        Some(t) => Some((t@, cur_text)),
        None => None,
    }
}

/// Reads lyrics markup into `(tag, text)` pairs, exactly as
/// [`spec_parse_lyrics`] describes: lines trimmed, chord lines (those
/// starting with a full stop) and empty lines dropped, the rest grouped
/// under their `[tag]` marker lines with the line breaks of a part kept.
/// Text before the first marker and parts without text are dropped; a
/// text that fits no marker at all yields no pairs.
pub fn parse_lyrics(raw: &str) -> (r: Vec<(PartTag, String)>)
    ensures
        spec_pair_views(r@) == spec_parse_lyrics(raw@),
{
    let lines = lines_vec(raw);
    let ghost lv = spec_views(lines@);
    let mut cleaned: Vec<String> = Vec::new();
    let mut k: usize = 0;
    proof {
        assert(lv.skip(0) =~= lv);
        assert(spec_views(cleaned@) =~= Seq::<Seq<char>>::empty());
        assert(spec_views(cleaned@) + spec_clean_lines(lv) =~= spec_clean_lines(lv));
    }
    while k < lines.len()
        invariant
            lv == spec_views(lines@),
            k <= lines@.len(),
            spec_clean_lines(lv) == spec_views(cleaned@) + spec_clean_lines(lv.skip(k as int)),
        decreases lines@.len() - k,
    {
        let ghost rest = lv.skip(k as int);
        proof {
            assert(rest[0] == lv[k as int]);
            assert(rest.skip(1) =~= lv.skip(k + 1));
        }
        let t = trim_str(lines[k].as_str());
        let keep = !t.as_str().is_empty() && !(t.as_str().get_char(0) == '.');
        if keep {
            proof {
                assert(spec_views(cleaned@.push(t)) =~= spec_views(cleaned@).push(t@));
                assert(spec_views(cleaned@) + (seq![t@] + spec_clean_lines(rest.skip(1)))
                    =~= spec_views(cleaned@.push(t)) + spec_clean_lines(lv.skip(k + 1)));
            }
            cleaned.push(t);
        }
        k += 1;
    }
    proof {
        assert(lv.skip(lines@.len() as int) =~= Seq::<Seq<char>>::empty());
        assert(spec_clean_lines(Seq::<Seq<char>>::empty()) =~= Seq::<Seq<char>>::empty());
        assert(spec_views(cleaned@) + Seq::<Seq<char>>::empty() =~= spec_views(cleaned@));
    }
    let ghost cl = spec_views(cleaned@);
    let mut result: Vec<(PartTag, String)> = Vec::new();
    let mut cur_tag: Option<String> = None;
    let mut cur_text: String = String::new();
    let mut i: usize = 0;
    proof {
        assert(spec_pair_views(result@) =~= Seq::<(Seq<char>, Seq<char>)>::empty());
    }
    while i < cleaned.len()
        invariant
            cl == spec_views(cleaned@),
            spec_clean_lines(spec_split_lines(raw@)) == cl,
            i <= cleaned@.len(),
            spec_parse_lyrics(raw@) == spec_group_lines(
                cl,
                i as int,
                spec_cur_view(cur_tag, cur_text@),
                spec_pair_views(result@),
            ),
            cur_tag is None ==> cur_text@.len() == 0,
        decreases cleaned@.len() - i,
    {
        let line = &cleaned[i];
        proof {
            assert(cl[i as int] == cleaned@[i as int]@);
        }
        if is_tag_line(line.as_str()) {
            let n = line.as_str().unicode_len();
            let inner = line.as_str().substring_char(1, n - 1).to_owned();
            let prev_tag = cur_tag;
            let prev_text = cur_text;
            if let Some(t) = prev_tag {
                if !prev_text.as_str().is_empty() {
                    proof {
                        assert(spec_pair_views(result@.push((t, prev_text)))
                            =~= spec_pair_views(result@).push((t@, prev_text@)));
                    }
                    result.push((t, prev_text));
                }
            }
            proof {
                assert(inner@ =~= cl[i as int].subrange(1, cl[i as int].len() - 1));
            }
            cur_tag = Some(inner);
            cur_text = String::new();
        } else {
            if cur_tag.is_some() {
                if cur_text.as_str().is_empty() {
                    cur_text = clone_str(line);
                } else {
                    proof {
                        reveal_strlit("\n");
                        assert("\n"@ =~= seq!['\n']);
                    }
                    cur_text.append("\n");
                    cur_text.append(line.as_str());
                }
            }
        }
        i += 1;
    }
    let prev_tag = cur_tag;
    let prev_text = cur_text;
    if let Some(t) = prev_tag {
        if !prev_text.as_str().is_empty() {
            proof {
                assert(spec_pair_views(result@.push((t, prev_text)))
                    =~= spec_pair_views(result@).push((t@, prev_text@)));
            }
            result.push((t, prev_text));
        }
    }
    result
}

/// A fresh string with the same characters.
fn clone_str(s: &String) -> (r: String)
    ensures
        r@ == s@,
{
    s.clone()
}

/// What the first element named `tag` of the document `xml` holds as
/// text; a function of the two arguments alone. `None` when `xml` is not
/// well-formed, has no such element, or the element has no text.
pub uninterp spec fn xml_elem_text(xml: Seq<char>, tag: Seq<char>) -> Option<Seq<char>>;

/// Relies on `roxmltree::Document::parse` and its node queries: parses
/// `xml` and returns the text of the first element named `tag`, in
/// document order. The result depends on the two arguments alone.
#[verifier::external_body]
fn xml_element_text(xml: &str, tag: &str) -> (r: Option<String>)
    ensures
        match r {
            Some(t) => xml_elem_text(xml@, tag@) == Some(t@),
            None => xml_elem_text(xml@, tag@) is None,
        },
{
    let doc = match roxmltree::Document::parse(xml) {
        Ok(d) => d,
        Err(_) => return None,
    };
    doc.descendants()
        .filter(|n| n.is_element())
        .find(|e| e.tag_name().name() == tag)
        .and_then(|n| n.text().map(|t| t.to_string()))
}

/// The tags of `(tag, text)` pairs, in order.
pub open spec fn spec_pair_tags(ps: Seq<(Seq<char>, Seq<char>)>) -> Seq<Seq<char>> {
    ps.map_values(|p: (Seq<char>, Seq<char>)| p.0)
}

impl Song {
    /// Reads a song out of its marked-up document: the title element is
    /// required, the author element optional, the lyrics element is
    /// required and must denote at least one part under
    /// [`spec_parse_lyrics`]; the presentation element, when it has
    /// text, gives the order as its space-separated tags, else the
    /// order lists the parts as written. Fails, with a validation
    /// error, exactly when title or lyrics are missing or the lyrics
    /// denote no part.
    pub fn parse_from_xml(xml: &str) -> (r: Result<Song, DataError>)
        ensures
            r is Ok <==> (xml_elem_text(xml@, "title"@) is Some && xml_elem_text(
                xml@,
                "lyrics"@,
            ) is Some && spec_parse_lyrics(xml_elem_text(xml@, "lyrics"@).unwrap()).len() > 0),
            r matches Ok(song) ==> {
                &&& Some(song.title@) == xml_elem_text(xml@, "title"@)
                &&& match song.author {
                    Some(a) => xml_elem_text(xml@, "author"@) == Some(a@),
                    None => xml_elem_text(xml@, "author"@) is None,
                }
                &&& spec_pair_views(song.parts@) == spec_parse_lyrics(
                    xml_elem_text(xml@, "lyrics"@).unwrap(),
                )
                &&& spec_views(song.order@) == match xml_elem_text(xml@, "presentation"@) {
                    Some(p) => spec_split_spaces(p),
                    None => spec_pair_tags(
                        spec_parse_lyrics(xml_elem_text(xml@, "lyrics"@).unwrap()),
                    ),
                }
            },
            r matches Err(e) ==> e.spec_kind() == ErrorKind::Validation,
    {
        let title = match xml_element_text(xml, "title") {
            Some(t) => t,
            None => {
                return Err(DataError::new(ErrorKind::Validation, "Píseň musí mít název"));
            },
        };
        let lyrics_text = match xml_element_text(xml, "lyrics") {
            Some(t) => t,
            None => {
                return Err(DataError::new(ErrorKind::Validation, "Píseň musí obsahovat slova"));
            },
        };
        let author = xml_element_text(xml, "author");
        let parts = parse_lyrics(lyrics_text.as_str());
        if parts.len() == 0 {
            proof {
                assert(spec_pair_views(parts@).len() == 0);
            }
            return Err(
                DataError::new(ErrorKind::Validation, "Nepodařilo se extrahovat slova z písně"),
            );
        }
        let order = match xml_element_text(xml, "presentation") {
            Some(p) => split_spaces(p.as_str()),
            None => {
                let mut tags: Vec<PartTag> = Vec::new();
                let mut j: usize = 0;
                while j < parts.len()
                    invariant
                        j <= parts@.len(),
                        spec_views(tags@) == spec_pair_tags(spec_pair_views(parts@)).take(j as int),
                    decreases parts@.len() - j,
                {
                    let t = clone_str(&parts[j].0);
                    proof {
                        assert(spec_views(tags@.push(t)) =~= spec_views(tags@).push(t@));
                        assert(spec_pair_tags(spec_pair_views(parts@)).take(j + 1)
                            =~= spec_pair_tags(spec_pair_views(parts@)).take(j as int).push(
                            spec_pair_views(parts@)[j as int].0,
                        ));
                    }
                    tags.push(t);
                    j += 1;
                }
                proof {
                    assert(spec_pair_tags(spec_pair_views(parts@)).take(parts@.len() as int)
                        =~= spec_pair_tags(spec_pair_views(parts@)));
                }
                tags
            },
        };
        proof {
            assert(spec_pair_views(parts@).len() > 0);
        }
        Ok(Song { title, author, parts, order })
    }
}

} // verus!
