//! Turning a hydrated playlist into the flat list of slides a
//! presentation walks through, and the presentation mode.
//!
//! A passage item becomes one slide per group of `verses_per_slide`
//! verses, in reading order; a song item becomes one slide per entry of
//! its presentation order, carrying that part's text. The slides of all
//! items follow each other in playlist order.

use vstd::prelude::*;
use crate::passage::Passage;
use crate::song::{Song, spec_part_tags, spec_tags_contain};
use crate::text::str_eq;
use crate::verse_index::VerseIndex;

verus! {

/// One fully loaded playlist entry: a passage with its text, or a song
/// with its parts.
pub enum PlaylistItem {
    /// A loaded passage.
    BiblePassage(Passage),
    /// A loaded song.
    Song(Song),
}

/// A playlist with its contents fully loaded: built for presentation
/// only, never persisted back.
pub struct Playlist {
    /// The id the playlist is stored under.
    pub id: i64,
    /// The playlist's name.
    pub name: String,
    /// The creation time, in whole seconds since the Unix epoch, UTC.
    pub created: i64,
    /// The loaded items, in playlist order.
    pub items: Vec<PlaylistItem>,
}

impl Playlist {
    /// The loaded items, giving up the playlist.
    pub fn into_items(self) -> (r: Vec<PlaylistItem>)
        ensures
            r@ == self.items@,
    {
        self.items
    }
}

/// One slide of a presented passage: the translation's name, the whole
/// passage's endpoints, and the verses this slide shows.
pub struct PassageSlide {
    /// The name of the translation the passage was read from.
    pub translation_name: String,
    /// The endpoints of the whole passage, not only of this slide.
    pub passage_indexes: (VerseIndex, VerseIndex),
    /// The verses this slide shows, as `(number, text)` pairs.
    pub verses: Vec<(u8, String)>,
}

impl PassageSlide {
    /// A passage slide carrying the given verses.
    pub fn new(translation_name: String, from: VerseIndex, to: VerseIndex, verses: Vec<(u8, String)>)
        -> (r: PassageSlide)
        ensures
            r.translation_name == translation_name,
            r.passage_indexes == (from, to),
            r.verses == verses,
    {
        PassageSlide { translation_name, passage_indexes: (from, to), verses }
    }
}

/// One slide of a presented song: the song's title, the part's tag, and
/// the part's text.
pub struct SongSlide {
    /// The song's title.
    pub title: String,
    /// The tag of the part this slide shows.
    pub part_name: String,
    /// The text of the part this slide shows.
    pub content: String,
}

impl SongSlide {
    /// A song slide carrying the given part.
    pub fn new(title: String, part_name: String, content: String) -> (r: SongSlide)
        ensures
            r.title == title,
            r.part_name == part_name,
            r.content == content,
    {
        SongSlide { title, part_name, content }
    }
}

/// One slide: part of a passage or part of a song.
pub enum Slide {
    /// A slide of a passage.
    Passage(PassageSlide),
    /// A slide of a song.
    Song(SongSlide),
}

/// A slide as contracts see it: every text as its characters.
pub enum SlideView {
    /// A passage slide: translation name, passage endpoints, verses.
    Passage { name: Seq<char>, from: VerseIndex, to: VerseIndex, verses: Seq<(u8, Seq<char>)> },
    /// A song slide: title, part tag, part text.
    Song { title: Seq<char>, part: Seq<char>, content: Seq<char> },
}

/// The verses of a slide, as contracts see them.
pub open spec fn spec_verse_views(v: Seq<(u8, String)>) -> Seq<(u8, Seq<char>)> {
    v.map_values(|p: (u8, String)| (p.0, p.1@))
}

/// The view of one slide.
pub open spec fn spec_slide_view(s: Slide) -> SlideView {
    match s {
        Slide::Passage(p) => SlideView::Passage {
            name: p.translation_name@,
            from: p.passage_indexes.0,
            to: p.passage_indexes.1,
            verses: spec_verse_views(p.verses@),
        },
        Slide::Song(g) => SlideView::Song {
            title: g.title@,
            part: g.part_name@,
            content: g.content@,
        },
    }
}

/// The views of a list of slides.
pub open spec fn spec_slide_views(s: Seq<Slide>) -> Seq<SlideView> {
    s.map_values(|x: Slide| spec_slide_view(x))
}

/// How many slides a run of `n` verses needs at `k` verses per slide:
/// none for an empty run, else one for the first `k` verses (or all of
/// them, when fewer) and then the slides of the rest.
pub open spec fn spec_chunk_count(n: int, k: int) -> int
    decreases n,
{
    if k <= 0 || n <= 0 {
        0
    } else if n <= k {
        1
    } else {
        1 + spec_chunk_count(n - k, k)
    }
}

/// While `j` whole groups do not cover `n` verses, `j` is below the
/// group count.
proof fn lemma_chunk_count_lower(n: int, k: int, j: int)
    requires
        k >= 1,
        j >= 0,
        j * k < n,
    ensures
        j < spec_chunk_count(n, k),
    decreases j,
{
    if j == 0 {
        if n > k {
            lemma_chunk_count_nonneg(n - k, k);
        }
    } else {
        assert((j - 1) * k == j * k - k) by (nonlinear_arith);
        assert(j * k >= k) by (nonlinear_arith)
            requires
                j >= 1,
                k >= 1,
        ;
        lemma_chunk_count_lower(n - k, k, j - 1);
        assert(n > k);
        assert(spec_chunk_count(n, k) == 1 + spec_chunk_count(n - k, k));
    }
}

/// Once `j` whole groups cover `n` verses, `j` reaches the group count.
proof fn lemma_chunk_count_upper(n: int, k: int, j: int)
    requires
        k >= 1,
        j >= 0,
        j * k >= n,
    ensures
        j >= spec_chunk_count(n, k),
    decreases j,
{
    if n <= 0 {
    } else if n <= k {
        assert(j >= 1) by (nonlinear_arith)
            requires
                j * k >= n,
                n >= 1,
                k >= 1,
                j >= 0,
        ;
    } else {
        assert(j >= 1) by (nonlinear_arith)
            requires
                j * k >= n,
                n >= 1,
                k >= 1,
                j >= 0,
        ;
        assert((j - 1) * k == j * k - k) by (nonlinear_arith);
        lemma_chunk_count_upper(n - k, k, j - 1);
    }
}

/// The `j`-th group of `k` verses.
pub open spec fn spec_chunk(v: Seq<(u8, Seq<char>)>, k: int, j: int) -> Seq<(u8, Seq<char>)> {
    v.subrange(j * k, if (j + 1) * k <= v.len() { (j + 1) * k } else { v.len() as int })
}

/// The slides of one passage: its verses in groups of `k`, each group
/// one slide carrying the translation's name and the passage endpoints.
pub open spec fn spec_passage_slides(p: Passage, k: int) -> Seq<SlideView> {
    let v = spec_verse_views(p.spec_verses());
    Seq::new(
        spec_chunk_count(v.len() as int, k) as nat,
        |j: int|
            SlideView::Passage {
                name: p.spec_translation_name(),
                from: p.spec_from(),
                to: p.spec_to(),
                verses: spec_chunk(v, k, j),
            },
    )
}

/// The text of the first part carrying `tag`; empty when no part does.
pub open spec fn spec_part_text(parts: Seq<(String, String)>, tag: Seq<char>) -> Seq<char>
    decreases parts.len(),
{
    if parts.len() == 0 {
        Seq::empty()
    } else if parts[0].0@ == tag {
        parts[0].1@
    } else {
        spec_part_text(parts.skip(1), tag)
    }
}

/// The slides of one song: one per entry of the presentation order,
/// carrying the title, the entry's tag, and that part's text.
pub open spec fn spec_song_slides(s: Song) -> Seq<SlideView> {
    Seq::new(
        s.order@.len(),
        |j: int|
            SlideView::Song {
                title: s.title@,
                part: s.order@[j]@,
                content: spec_part_text(s.parts@, s.order@[j]@),
            },
    )
}

/// The slides of one item.
pub open spec fn spec_item_slides(item: PlaylistItem, k: int) -> Seq<SlideView> {
    match item {
        PlaylistItem::BiblePassage(p) => spec_passage_slides(p, k),
        PlaylistItem::Song(s) => spec_song_slides(s),
    }
}

/// The slides of a list of items, in item order.
pub open spec fn spec_playlist_slides(items: Seq<PlaylistItem>, k: int) -> Seq<SlideView>
    decreases items.len(),
{
    if items.len() == 0 {
        Seq::empty()
    } else {
        spec_item_slides(items[0], k) + spec_playlist_slides(items.skip(1), k)
    }
}

/// Whether every tag of the song's order names a part the song has.
pub open spec fn spec_song_complete(s: &Song) -> bool {
    forall|j: int|
        0 <= j < s.order@.len() ==> spec_tags_contain(
            spec_part_tags(s.parts@),
            (#[trigger] s.order@[j])@,
        )
}

/// Turns a playlist into the flat slide list of its presentation: for
/// each item in order, a passage contributes one slide per group of
/// `verses_per_slide` verses and a song one slide per entry of its
/// order. Songs must be complete: every order entry names a part.
pub fn playlist_to_slides(playlist: Playlist, verses_per_slide: usize) -> (r: Vec<Slide>)
    requires
        verses_per_slide >= 1,
        forall|i: int|
            0 <= i < playlist.items@.len() ==> ((#[trigger] playlist.items@[i]) matches
                PlaylistItem::Song(s) ==> spec_song_complete(&s)),
    ensures
        spec_slide_views(r@) == spec_playlist_slides(playlist.items@, verses_per_slide as int),
{
    let ghost all = playlist.items@;
    let k = verses_per_slide;
    let items = playlist.into_items();
    let mut slides: Vec<Slide> = Vec::new();
    let mut i: usize = 0;
    proof {
        assert(all.skip(0) =~= all);
        assert(spec_slide_views(slides@) =~= Seq::<SlideView>::empty());
        assert(spec_slide_views(slides@) + spec_playlist_slides(all, k as int)
            =~= spec_playlist_slides(all, k as int));
    }
    while i < items.len()
        invariant
            all == items@,
            verses_per_slide >= 1,
            k == verses_per_slide,
            i <= items@.len(),
            forall|m: int|
                0 <= m < items@.len() ==> ((#[trigger] items@[m]) matches PlaylistItem::Song(s)
                    ==> spec_song_complete(&s)),
            spec_playlist_slides(all, k as int) == spec_slide_views(slides@)
                + spec_playlist_slides(all.skip(i as int), k as int),
        decreases items@.len() - i,
    {
        let ghost rest = all.skip(i as int);
        proof {
            assert(rest[0] == all[i as int]);
            assert(rest.skip(1) =~= all.skip(i + 1));
        }
        match &items[i] {
            PlaylistItem::BiblePassage(p) => {
                push_passage_slides(&mut slides, p, k);
            },
            PlaylistItem::Song(s) => {
                push_song_slides(&mut slides, s);
            },
        }
        i += 1;
    }
    proof {
        assert(all.skip(items@.len() as int) =~= Seq::<PlaylistItem>::empty());
        assert(spec_playlist_slides(Seq::<PlaylistItem>::empty(), k as int)
            =~= Seq::<SlideView>::empty());
        assert(spec_slide_views(slides@) + Seq::<SlideView>::empty() =~= spec_slide_views(slides@));
    }
    slides
}

/// Appends the slides of one passage: its verses in groups of `k`.
fn push_passage_slides(slides: &mut Vec<Slide>, p: &Passage, k: usize)
    requires
        k >= 1,
    ensures
        spec_slide_views(final(slides)@) == spec_slide_views(old(slides)@) + spec_passage_slides(
            *p,
            k as int,
        ),
{
    let ghost v = spec_verse_views(p.spec_verses());
    let ghost want = spec_passage_slides(*p, k as int);
    let verses = p.get_verses();
    let n = verses.len();
    let (from, to) = p.get_range();
    let mut j: usize = 0;
    let mut start: usize = 0;
    proof {
        lemma_chunk_count_nonneg(n as int, k as int);
        assert(spec_slide_views(slides@) + want.take(0) =~= spec_slide_views(slides@));
    }
    while start < n
        invariant
            k >= 1,
            v == spec_verse_views(p.spec_verses()),
            want == spec_passage_slides(*p, k as int),
            verses@ == p.spec_verses(),
            n == p.spec_verses().len(),
            v.len() == n,
            want.len() == spec_chunk_count(n as int, k as int),
            if j * k <= n {
                start == j * k
            } else {
                start == n
            },
            start <= n,
            0 <= j,
            j <= spec_chunk_count(n as int, k as int),
            from == p.spec_from(),
            to == p.spec_to(),
            spec_slide_views(slides@) == spec_slide_views(old(slides)@) + want.take(j as int),
        decreases n - start,
    {
        proof {
            assert(j * k <= n && start == j * k) by {
                if j * k > n {
                    assert(start == n);
                }
            }
            lemma_chunk_count_lower(n as int, k as int, j as int);
            assert(j <= j * k) by (nonlinear_arith)
                requires
                    k >= 1,
                    j >= 0,
            ;
        }
        let end = if n - start > k {
            start + k
        } else {
            n
        };
        let mut chunk: Vec<(u8, String)> = Vec::new();
        let mut m: usize = start;
        proof {
            assert(spec_verse_views(chunk@) =~= v.subrange(start as int, start as int));
        }
        while m < end
            invariant
                start <= m <= end <= n,
                n == p.spec_verses().len(),
                v == spec_verse_views(p.spec_verses()),
                v.len() == n,
                verses@ == p.spec_verses(),
                spec_verse_views(chunk@) == v.subrange(start as int, m as int),
            decreases end - m,
        {
            let number = verses[m].0;
            let text = clone_string(&verses[m].1);
            proof {
                assert(spec_verse_views(chunk@.push((number, text))) =~= spec_verse_views(chunk@)
                    .push((number, text@)));
                assert(v.subrange(start as int, m + 1) =~= v.subrange(start as int, m as int).push(
                    v[m as int],
                ));
                assert(v[m as int] == (p.spec_verses()[m as int].0, p.spec_verses()[m as int].1@));
            }
            chunk.push((number, text));
            m += 1;
        }
        let slide = Slide::Passage(
            PassageSlide::new(clone_string_ref(p.get_translation_name()), from, to, chunk),
        );
        proof {
            assert(spec_chunk(v, k as int, j as int) =~= v.subrange(start as int, end as int)) by {
                assert((j + 1) * k == start + k) by (nonlinear_arith)
                    requires
                        j * k == start,
                ;
            }
            assert(spec_slide_view(slide) == want[j as int]);
            assert(spec_slide_views(slides@.push(slide)) =~= spec_slide_views(slides@).push(
                spec_slide_view(slide),
            ));
            assert(want.take(j + 1) =~= want.take(j as int).push(want[j as int]));
        }
        slides.push(slide);
        proof {
            assert((j + 1) * k == start + k) by (nonlinear_arith)
            requires
                j * k == start,
            ;
        }
        j += 1;
        start = end;
    }
    proof {
        assert(j * k >= n) by {
            if j * k <= n {
                assert(start == j * k);
            }
        }
        lemma_chunk_count_upper(n as int, k as int, j as int);
        assert(want.take(j as int) =~= want);
    }
}

/// The group count is never negative.
proof fn lemma_chunk_count_nonneg(n: int, k: int)
    ensures
        spec_chunk_count(n, k) >= 0,
    decreases n,
{
    if k >= 1 && n > k {
        lemma_chunk_count_nonneg(n - k, k);
    }
}

/// Appends the slides of one song: one per entry of its order.
fn push_song_slides(slides: &mut Vec<Slide>, s: &Song)
    requires
        spec_song_complete(s),
    ensures
        spec_slide_views(final(slides)@) == spec_slide_views(old(slides)@) + spec_song_slides(*s),
{
    let ghost want = spec_song_slides(*s);
    let mut j: usize = 0;
    proof {
        assert(spec_slide_views(slides@) + want.take(0) =~= spec_slide_views(slides@));
    }
    while j < s.order.len()
        invariant
            spec_song_complete(s),
            want == spec_song_slides(*s),
            j <= s.order@.len(),
            spec_slide_views(slides@) == spec_slide_views(old(slides)@) + want.take(j as int),
        decreases s.order@.len() - j,
    {
        let tag = &s.order[j];
        let content = part_text(&s.parts, tag.as_str());
        let slide = Slide::Song(
            SongSlide::new(clone_string(&s.title), clone_string(tag), content),
        );
        proof {
            assert(spec_slide_view(slide) == want[j as int]);
            assert(spec_slide_views(slides@.push(slide)) =~= spec_slide_views(slides@).push(
                spec_slide_view(slide),
            ));
            assert(want.take(j + 1) =~= want.take(j as int).push(want[j as int]));
        }
        slides.push(slide);
        j += 1;
    }
    proof {
        assert(want.take(s.order@.len() as int) =~= want);
    }
}

/// The text of the first part carrying `tag`; the empty string when no
/// part does.
fn part_text(parts: &Vec<(String, String)>, tag: &str) -> (r: String)
    ensures
        r@ == spec_part_text(parts@, tag@),
{
    let mut j: usize = 0;
    proof {
        assert(parts@.skip(0) =~= parts@);
    }
    while j < parts.len()
        invariant
            j <= parts@.len(),
            spec_part_text(parts@, tag@) == spec_part_text(parts@.skip(j as int), tag@),
        decreases parts@.len() - j,
    {
        let ghost rest = parts@.skip(j as int);
        proof {
            assert(rest[0] == parts@[j as int]);
            assert(rest.skip(1) =~= parts@.skip(j + 1));
        }
        if str_eq(parts[j].0.as_str(), tag) {
            return clone_string(&parts[j].1);
        }
        j += 1;
    }
    proof {
        assert(parts@.skip(parts@.len() as int) =~= Seq::<(String, String)>::empty());
    }
    String::new()
}

/// A fresh string with the same characters.
fn clone_string(s: &String) -> (r: String)
    ensures
        r@ == s@,
{
    s.clone()
}

/// A fresh string with the same characters as the slice.
fn clone_string_ref(s: &str) -> (r: String)
    ensures
        r@ == s@,
{
    s.to_owned()
}

/// How the presentation window behaves, switchable while presenting.
#[derive(Debug, Clone, Copy)]
pub enum PresentationMode {
    /// The selected slide is shown.
    Normal,
    /// A blank slide is shown.
    Blank,
    /// The slide with the carried index stays on show, whatever is
    /// selected.
    Frozen(usize),
}

/// Two modes are the same kind of mode: a frozen mode equals any frozen
/// mode, whatever the held index, so that mode pickers treat "frozen" as
/// one choice.
impl PartialEq for PresentationMode {
    fn eq(&self, other: &Self) -> (r: bool) {
        match (self, other) {
            (PresentationMode::Normal, PresentationMode::Normal) => true,
            (PresentationMode::Blank, PresentationMode::Blank) => true,
            (PresentationMode::Frozen(_), PresentationMode::Frozen(_)) => true,
            _ => false,
        }
    }
}

impl vstd::std_specs::cmp::PartialEqSpecImpl for PresentationMode {
    open spec fn obeys_eq_spec() -> bool {
        true
    }

    open spec fn eq_spec(&self, other: &Self) -> bool {
        match (self, other) {
            (PresentationMode::Normal, PresentationMode::Normal) => true,
            (PresentationMode::Blank, PresentationMode::Blank) => true,
            (PresentationMode::Frozen(_), PresentationMode::Frozen(_)) => true,
            _ => false,
        }
    }
}

impl Eq for PresentationMode {}

} // verus!
