//! The song select screen: the song list's rows and selection, the texts of
//! the beatmap cards, which difficulty ratings are shown, the calculator
//! choice and the search panel's events.
use vstd::prelude::*;
use vstd::string::*;

use crate::text::{decimal, eq_ignore_ascii_case, eq_ignore_ascii_case_spec, push_decimal, str_eq};

verus! {

/// The height of a song row in the list (card 80 + margin 8).
pub const ROW_HEIGHT: u64 = 88;

/// The height that each difficulty after the first adds below the selected
/// song (card 35 + margin 4).
pub const DIFFICULTY_HEIGHT: u64 = 39;

/// The height of row `i`: the selected song also shows its difficulties when
/// it has more than one.
pub open spec fn row_height(counts: Seq<usize>, selected: int, i: int) -> int {
    if i == selected && counts[i] > 1 {
        ROW_HEIGHT + DIFFICULTY_HEIGHT * (counts[i] - 1)
    } else {
        ROW_HEIGHT as int
    }
}

/// Where row `i` starts: the heights of the rows before it added up.
pub open spec fn row_offset(counts: Seq<usize>, selected: int, i: int) -> int
    decreases i,
{
    if i <= 0 {
        0
    } else {
        row_offset(counts, selected, i - 1) + row_height(counts, selected, i - 1)
    }
}

/// The start of each row of the song list and the list's total height;
/// `counts[i]` is the number of difficulties of song `i`.
pub fn row_offsets(counts: &Vec<usize>, selected: usize) -> (r: (Vec<u64>, u64))
    requires
        row_offset(counts@, selected as int, counts@.len() as int) <= u64::MAX,
    ensures
        r.0@.len() == counts@.len(),
        forall|i: int| 0 <= i < counts@.len() ==> #[trigger] r.0@[i] == row_offset(counts@, selected as int, i),
        r.1 == row_offset(counts@, selected as int, counts@.len() as int),
{
    let mut offsets: Vec<u64> = Vec::new();
    let mut current: u64 = 0;
    let mut i: usize = 0;
    while i < counts.len()
        invariant
            i <= counts@.len(),
            offsets@.len() == i,
            current == row_offset(counts@, selected as int, i as int),
            row_offset(counts@, selected as int, counts@.len() as int) <= u64::MAX,
            forall|k: int| 0 <= k < i ==> #[trigger] offsets@[k] == row_offset(counts@, selected as int, k),
        decreases counts.len() - i,
    {
        offsets.push(current);
        proof {
            lemma_row_offset_monotone(counts@, selected as int, i + 1, counts@.len() as int);
        }
        let height: u64 = if i == selected && counts[i] > 1 {
            ROW_HEIGHT + DIFFICULTY_HEIGHT * ((counts[i] - 1) as u64)
        } else {
            ROW_HEIGHT
        };
        current = current + height;
        i = i + 1;
    }
    (offsets, current)
}

/// Rows start no earlier than the rows before them.
pub proof fn lemma_row_offset_monotone(counts: Seq<usize>, selected: int, i: int, j: int)
    requires
        0 <= i <= j <= counts.len(),
    ensures
        row_offset(counts, selected, i) <= row_offset(counts, selected, j),
        i < j ==> row_offset(counts, selected, i) + row_height(counts, selected, i) <= row_offset(
            counts,
            selected,
            j,
        ),
    decreases j,
{
    if i < j {
        lemma_row_offset_monotone(counts, selected, i, j - 1);
    }
}

/// The list starts at 0 and each row is 88 pixels tall, but the selected
/// song with more than one difficulty, which grows by 39 pixels for each
/// difficulty after the first.
pub proof fn lemma_row_heights(counts: Seq<usize>, selected: int, i: int)
    requires
        0 <= i < counts.len(),
    ensures
        row_offset(counts, selected, 0) == 0,
        row_offset(counts, selected, i + 1) - row_offset(counts, selected, i) == if i == selected
            && counts[i] > 1 {
            88 + 39 * (counts[i] - 1)
        } else {
            88
        },
{
}

/// The rows that a viewport from `top` to `bottom` shows: from the first row
/// starting at or below `top` (0 if none) to the first row starting below
/// `bottom` (the end if none).
pub fn visible_rows(offsets: &Vec<u64>, top: i64, bottom: i64) -> (r: (usize, usize))
    ensures
        (exists|i: int| 0 <= i < offsets@.len() && offsets@[i] >= top) ==> (r.0 < offsets@.len()
            && offsets@[r.0 as int] >= top && forall|j: int| 0 <= j < r.0 ==> offsets@[j] < top),
        (forall|i: int| 0 <= i < offsets@.len() ==> offsets@[i] < top) ==> r.0 == 0,
        r.1 <= offsets@.len(),
        r.1 < offsets@.len() ==> offsets@[r.1 as int] > bottom,
        forall|j: int| 0 <= j < r.1 ==> offsets@[j] <= bottom,
{
    let n = offsets.len();
    let mut first: usize = 0;
    let mut found = false;
    let mut i: usize = 0;
    while i < n
        invariant
            n == offsets@.len(),
            i <= n,
            !found ==> forall|j: int| 0 <= j < i ==> offsets@[j] < top,
            found ==> first < n && offsets@[first as int] >= top && forall|j: int|
                0 <= j < first ==> offsets@[j] < top,
            !found ==> first == 0,
        decreases n - i,
    {
        if !found && offsets[i] as i128 >= top as i128 {
            first = i;
            found = true;
        }
        i = i + 1;
    }
    let mut last: usize = 0;
    while last < n && offsets[last] as i128 <= bottom as i128
        invariant
            n == offsets@.len(),
            last <= n,
            forall|j: int| 0 <= j < last ==> offsets@[j] <= bottom,
        decreases n - last,
    {
        last = last + 1;
    }
    (first, last)
}

/// In a viewport whose top is not below its bottom, the first visible row
/// never comes after the end of the visible rows.
pub proof fn lemma_visible_rows_ordered(offsets: Seq<u64>, top: i64, bottom: i64, first: usize, last: usize)
    requires
        top <= bottom,
        (exists|i: int| 0 <= i < offsets.len() && offsets[i] >= top) ==> (first < offsets.len()
            && offsets[first as int] >= top),
        (forall|i: int| 0 <= i < offsets.len() ==> offsets[i] < top) ==> first == 0,
        last <= offsets.len(),
        last < offsets.len() ==> offsets[last as int] > bottom,
        forall|j: int| 0 <= j < last ==> offsets[j] <= bottom,
        forall|i: int, j: int| 0 <= i <= j < offsets.len() ==> offsets[i] <= offsets[j],
    ensures
        first <= last || (first < offsets.len() && offsets[first as int] > bottom),
{
}

/// The selection state of the song list: which song is selected, which was
/// before, whether the list must scroll to it, and how far the highlight
/// has faded in (in hundredths).
pub struct SongList {
    current: usize,
    previous_selection: usize,
    need_scroll_center: bool,
    selection_anim: u32,
    min: usize,
    max: usize,
}

impl SongList {
    pub closed spec fn current(&self) -> usize {
        self.current
    }

    pub closed spec fn previous_selection(&self) -> usize {
        self.previous_selection
    }

    pub closed spec fn need_scroll_center(&self) -> bool {
        self.need_scroll_center
    }

    pub closed spec fn selection_anim(&self) -> u32 {
        self.selection_anim
    }

    pub closed spec fn visible_range(&self) -> (usize, usize) {
        (self.min, self.max)
    }

    /// The highlight never goes past fully shown.
    pub closed spec fn wf(&self) -> bool {
        self.selection_anim <= 100
    }

    /// A list on the first song, fully highlighted, to be centred on the
    /// first render.
    pub fn new() -> (r: Self)
        ensures
            r.wf(),
            r.current() == 0,
            r.previous_selection() == 0,
            r.need_scroll_center(),
            r.selection_anim() == 100,
            r.visible_range() == (0usize, 0usize),
    {
        SongList {
            current: 0,
            previous_selection: 0,
            need_scroll_center: true,
            selection_anim: 100,
            min: 0,
            max: 0,
        }
    }

    /// Asks the list to centre the selection on the next render.
    pub fn set_scroll_to(&mut self, _to: usize)
        ensures
            final(self).need_scroll_center(),
            final(self).current() == old(self).current(),
            final(self).previous_selection() == old(self).previous_selection(),
            final(self).selection_anim() == old(self).selection_anim(),
            final(self).visible_range() == old(self).visible_range(),
            final(self).wf() == old(self).wf(),
    {
        self.need_scroll_center = true;
    }

    /// Selects a song: a new selection remembers the old one, restarts the
    /// highlight and asks for centring; selecting the current song changes
    /// nothing.
    pub fn set_current(&mut self, current: usize)
        requires
            old(self).wf(),
        ensures
            final(self).wf(),
            final(self).visible_range() == old(self).visible_range(),
            old(self).current() == current ==> *final(self) == *old(self),
            old(self).current() != current ==> final(self).current() == current
                && final(self).previous_selection() == old(self).current()
                && final(self).need_scroll_center() && final(self).selection_anim() == 0,
    {
        if self.current != current {
            self.previous_selection = self.current;
            self.current = current;
            self.need_scroll_center = true;
            self.selection_anim = 0;
        }
    }

    /// One frame of the highlight's fade: 15 hundredths more, up to fully
    /// shown. Tells whether the fade was still running (the list then asks
    /// for another frame).
    pub fn advance_animation(&mut self) -> (running: bool)
        requires
            old(self).wf(),
        ensures
            final(self).wf(),
            running == (old(self).selection_anim() < 100),
            final(self).selection_anim() == if old(self).selection_anim() + 15 < 100 {
                old(self).selection_anim() + 15
            } else {
                100
            },
            final(self).current() == old(self).current(),
            final(self).previous_selection() == old(self).previous_selection(),
            final(self).need_scroll_center() == old(self).need_scroll_center(),
            final(self).visible_range() == old(self).visible_range(),
    {
        if self.selection_anim < 100 {
            self.selection_anim = if self.selection_anim + 15 < 100 {
                self.selection_anim + 15
            } else {
                100
            };
            true
        } else {
            false
        }
    }

    /// How strongly row `id` is highlighted, in hundredths: the selected row
    /// fades in, the previously selected one fades out.
    pub fn row_highlight(&self, id: usize) -> (r: u32)
        requires
            self.wf(),
        ensures
            r <= 100,
            r == if id == self.current() {
                self.selection_anim()
            } else if id == self.previous_selection() && self.selection_anim() < 100 {
                (100 - self.selection_anim()) as u32
            } else {
                0
            },
    {
        if id == self.current {
            self.selection_anim
        } else if id == self.previous_selection && self.selection_anim < 100 {
            100 - self.selection_anim
        } else {
            0
        }
    }

    /// Whether the list must scroll to row `id` now: it is the selected row
    /// and centring was asked for. The request is then served.
    pub fn take_scroll_request(&mut self, id: usize) -> (r: bool)
        ensures
            r == (id == old(self).current() && old(self).need_scroll_center()),
            final(self).need_scroll_center() == (old(self).need_scroll_center() && !r),
            final(self).current() == old(self).current(),
            final(self).previous_selection() == old(self).previous_selection(),
            final(self).selection_anim() == old(self).selection_anim(),
            final(self).visible_range() == old(self).visible_range(),
            final(self).wf() == old(self).wf(),
    {
        if id == self.current && self.need_scroll_center {
            self.need_scroll_center = false;
            true
        } else {
            false
        }
    }

    /// Records the rows drawn last.
    pub fn set_visible_range(&mut self, min: usize, max: usize)
        ensures
            final(self).visible_range() == (min, max),
            final(self).current() == old(self).current(),
            final(self).previous_selection() == old(self).previous_selection(),
            final(self).need_scroll_center() == old(self).need_scroll_center(),
            final(self).selection_anim() == old(self).selection_anim(),
            final(self).wf() == old(self).wf(),
    {
        self.min = min;
        self.max = max;
    }
}

/// The highlight after `n` frames of fading from `a` hundredths, as
/// `advance_animation` steps it.
pub open spec fn fade_after(a: int, n: nat) -> int
    decreases n,
{
    if n == 0 {
        a
    } else {
        fade_after(if a + 15 < 100 {
            a + 15
        } else {
            100
        }, (n - 1) as nat)
    }
}

/// A fade, from wherever it stands, is complete after seven frames and
/// then stays complete.
pub proof fn lemma_fade_completes(a: int, n: nat)
    requires
        0 <= a <= 100,
        n >= 7,
    ensures
        fade_after(a, n) == 100,
    decreases n,
{
    if n > 7 {
        let b = if a + 15 < 100 {
            a + 15
        } else {
            100
        };
        if b == 100 {
            lemma_fade_stays_complete((n - 1) as nat);
        } else {
            lemma_fade_completes(b, (n - 1) as nat);
        }
    } else {
        reveal_with_fuel(fade_after, 8);
    }
}

proof fn lemma_fade_stays_complete(n: nat)
    ensures
        fade_after(100, n) == 100,
    decreases n,
{
    if n > 0 {
        lemma_fade_stays_complete((n - 1) as nat);
    }
}

/// The text of a song card's title: the title, or "Unknown Title".
pub open spec fn title_text_spec(title: Option<String>) -> Seq<char> {
    match title {
        Some(t) => t@,
        None => "Unknown Title"@,
    }
}

/// The text of a song card's title.
pub fn card_title_text(title: &Option<String>) -> (r: String)
    ensures
        r@ == title_text_spec(*title),
{
    match title {
        Some(t) => t.clone(),
        None => String::from_str("Unknown Title"),
    }
}

/// The difficulty a card shows: the current one, or the last where the
/// index is past the end.
pub open spec fn shown_difficulty(len: nat, current: nat) -> nat {
    if len == 0 {
        0
    } else if current < len {
        current
    } else {
        (len - 1) as nat
    }
}

/// The artist and difficulty line of a song card: "artist | difficulty",
/// followed by " (k/n)" when the song has several difficulties.
pub open spec fn artist_difficulty_text_spec(
    artist: Option<String>,
    names: Seq<Option<String>>,
    current: usize,
) -> Seq<char> {
    let a = match artist {
        Some(x) => x@,
        None => "Unknown Artist"@,
    };
    let k = shown_difficulty(names.len(), current as nat);
    let d = if k < names.len() && names[k as int] is Some {
        names[k as int]->0@
    } else {
        "Unknown"@
    };
    if names.len() > 1 {
        a + " | "@ + d + " ("@ + decimal((current + 1) as nat) + "/"@ + decimal(names.len()) + ")"@
    } else {
        a + " | "@ + d
    }
}

/// The artist and difficulty line of a song card; `names[i]` is the name
/// of difficulty `i` and `current` the one selected.
pub fn card_artist_difficulty_text(
    artist: &Option<String>,
    names: &Vec<Option<String>>,
    current: usize,
) -> (r: String)
    requires
        names@.len() > 1 ==> current < usize::MAX,
    ensures
        r@ == artist_difficulty_text_spec(*artist, names@, current),
{
    let mut r = match artist {
        Some(a) => a.clone(),
        None => String::from_str("Unknown Artist"),
    };
    r.append(" | ");
    let len = names.len();
    let k = if len == 0 {
        0
    } else if current < len {
        current
    } else {
        len - 1
    };
    if k < len {
        match &names[k] {
            Some(d) => r.append(d.as_str()),
            None => r.append("Unknown"),
        }
    } else {
        r.append("Unknown");
    }
    if len > 1 {
        r.append(" (");
        push_decimal(&mut r, (current + 1) as u64);
        r.append("/");
        push_decimal(&mut r, len as u64);
        r.append(")");
    }
    r
}

/// The difficulty a card marks as current: the selected one (at most the
/// last) on the selected card, the first on the others.
pub fn card_difficulty_index(is_selected: bool, selected_difficulty: usize, len: usize) -> (r: usize)
    ensures
        r == if is_selected {
            if selected_difficulty < len {
                selected_difficulty
            } else if len == 0 {
                0
            } else {
                (len - 1) as usize
            }
        } else {
            0
        },
{
    if is_selected {
        let last = if len == 0 {
            0
        } else {
            len - 1
        };
        if selected_difficulty < last {
            selected_difficulty
        } else {
            last
        }
    } else {
        0
    }
}

/// The names listed under the selected card: each difficulty's name, or
/// "Unknown".
pub fn difficulty_row_names(names: &Vec<Option<String>>) -> (r: Vec<String>)
    ensures
        r@.len() == names@.len(),
        forall|i: int|
            0 <= i < names@.len() ==> #[trigger] r@[i]@ == match names@[i] {
                Some(n) => n@,
                None => "Unknown"@,
            },
{
    let mut r: Vec<String> = Vec::new();
    let mut i: usize = 0;
    while i < names.len()
        invariant
            i <= names@.len(),
            r@.len() == i,
            forall|k: int|
                0 <= k < i ==> #[trigger] r@[k]@ == match names@[k] {
                    Some(n) => n@,
                    None => "Unknown"@,
                },
        decreases names.len() - i,
    {
        let s = match &names[i] {
            Some(n) => n.clone(),
            None => String::from_str("Unknown"),
        };
        r.push(s);
        i = i + 1;
    }
    r
}


/// The song card of the list.
pub struct SongCard;

/// The difficulty card under the selected song.
pub struct DifficultyCard;

/// The first position among `names` whose name matches `target` without
/// regard to ASCII case.
pub open spec fn first_match(names: Seq<Seq<char>>, target: Seq<char>) -> Option<int>
    decreases names.len(),
{
    if names.len() == 0 {
        None
    } else {
        match first_match(names.drop_last(), target) {
            Some(i) => Some(i),
            None => if eq_ignore_ascii_case_spec(names.last(), target) {
                Some(names.len() - 1)
            } else {
                None
            },
        }
    }
}

/// The names of a list of ratings, as character sequences.
pub open spec fn name_views(names: Seq<String>) -> Seq<Seq<char>> {
    names.map_values(|n: String| n@)
}

/// Where `first_match` finds a name, it is the first that matches.
pub proof fn lemma_first_match(names: Seq<Seq<char>>, target: Seq<char>)
    ensures
        first_match(names, target) matches Some(i) ==> 0 <= i < names.len()
            && eq_ignore_ascii_case_spec(names[i], target) && forall|j: int|
            0 <= j < i ==> !eq_ignore_ascii_case_spec(#[trigger] names[j], target),
        first_match(names, target) is None ==> forall|j: int|
            0 <= j < names.len() ==> !eq_ignore_ascii_case_spec(#[trigger] names[j], target),
    decreases names.len(),
{
    if names.len() > 0 {
        let t = names.drop_last();
        lemma_first_match(t, target);
        assert forall|j: int| 0 <= j < t.len() implies t[j] == names[j] by {}
    }
}

/// The first rating among `names` whose calculator is `target`, ignoring
/// ASCII case.
fn find_name(names: &Vec<String>, target: &str) -> (r: Option<usize>)
    ensures
        r == match first_match(name_views(names@), target@) {
            Some(i) => Some(i as usize),
            None => None,
        },
{
    let ghost views = name_views(names@);
    let mut i: usize = 0;
    assert(views.take(0) =~= Seq::<Seq<char>>::empty());
    while i < names.len()
        invariant
            i <= names@.len(),
            views == name_views(names@),
            first_match(views.take(i as int), target@) is None,
        decreases names.len() - i,
    {
        assert(views.take((i + 1) as int).drop_last() =~= views.take(i as int));
        assert(views.take((i + 1) as int).last() == names@[i as int]@);
        if eq_ignore_ascii_case(names[i].as_str(), target) {
            assert(first_match(views.take((i + 1) as int), target@) == Some(i as int));
            proof {
                lemma_first_match_extend(views, target@, (i + 1) as int);
            }
            return Some(i);
        }
        i = i + 1;
    }
    assert(views.take(names@.len() as int) =~= views);
    None
}

/// The rating whose calculator is `target` (ignoring ASCII case), if the
/// ratings are known and one is.
pub fn find_rating(ratings: Option<&Vec<String>>, target: &str) -> (r: Option<usize>)
    ensures
        r == match ratings {
            Some(names) => match first_match(name_views(names@), target@) {
                Some(i) => Some(i as usize),
                None => None,
            },
            None => None,
        },
{
    match ratings {
        None => None,
        Some(names) => find_name(names, target),
    }
}

proof fn lemma_first_match_extend(names: Seq<Seq<char>>, target: Seq<char>, k: int)
    requires
        0 <= k <= names.len(),
        first_match(names.take(k), target) is Some,
    ensures
        first_match(names, target) == first_match(names.take(k), target),
    decreases names.len() - k,
{
    if k < names.len() {
        let t = names.take(k + 1);
        assert(t.drop_last() =~= names.take(k));
        lemma_first_match_extend(names, target, k + 1);
    } else {
        assert(names.take(k) =~= names);
    }
}

/// The rating a beatmap shows for a calculator: the calculator's own, or
/// else the beatmap's first rating.
pub open spec fn beatmap_rating_spec(names: Seq<String>, calculator: Seq<char>) -> Option<int> {
    match first_match(name_views(names), calculator) {
        Some(i) => Some(i),
        None => if names.len() > 0 {
            Some(0)
        } else {
            None
        },
    }
}

/// The rating a beatmap shows: where some rating's name equals the
/// calculator up to ASCII case, the first such rating; the first rating
/// only where none does; none for a beatmap without ratings.
pub proof fn lemma_rating_prefers_calculator(names: Seq<String>, calculator: Seq<char>)
    ensures
        (exists|i: int| 0 <= i < names.len() && eq_ignore_ascii_case_spec(#[trigger] names[i]@, calculator))
            ==> (beatmap_rating_spec(names, calculator) matches Some(k) && 0 <= k < names.len()
            && eq_ignore_ascii_case_spec(names[k]@, calculator) && forall|j: int|
            0 <= j < k ==> !eq_ignore_ascii_case_spec(#[trigger] names[j]@, calculator)),
        (forall|i: int| 0 <= i < names.len() ==> !eq_ignore_ascii_case_spec(#[trigger] names[i]@, calculator))
            ==> beatmap_rating_spec(names, calculator) == if names.len() > 0 {
            Some(0int)
        } else {
            None
        },
{
    let v = name_views(names);
    lemma_first_match(v, calculator);
    assert(v.len() == names.len());
    assert forall|i: int| 0 <= i < names.len() implies #[trigger] v[i] == names[i]@ by {}
    if exists|i: int| 0 <= i < names.len() && eq_ignore_ascii_case_spec(#[trigger] names[i]@, calculator) {
        let i = choose|i: int| 0 <= i < names.len() && eq_ignore_ascii_case_spec(#[trigger] names[i]@, calculator);
        assert(v[i] == names[i]@);
        assert(first_match(v, calculator) is Some);
        let k = first_match(v, calculator)->0;
        assert(v[k] == names[k]@);
        assert forall|j: int| 0 <= j < k implies !eq_ignore_ascii_case_spec(#[trigger] names[j]@, calculator) by {
            assert(v[j] == names[j]@);
        }
    } else {
        assert forall|j: int| 0 <= j < v.len() implies !eq_ignore_ascii_case_spec(#[trigger] v[j], calculator) by {
            assert(v[j] == names[j]@);
        }
    }
}

/// The rating a beatmap shows for a calculator, by position among its
/// ratings.
pub fn beatmap_rating_index(names: &Vec<String>, calculator: &str) -> (r: Option<usize>)
    ensures
        r == match beatmap_rating_spec(names@, calculator@) {
            Some(i) => Some(i as usize),
            None => None,
        },
{
    match find_rating(Some(names), calculator) {
        Some(i) => Some(i),
        None => if names.len() > 0 {
            Some(0)
        } else {
            None
        },
    }
}

/// The ratings that a song's difficulty range spans: where some beatmap has
/// a rating of the calculator, that rating of each beatmap that has one;
/// otherwise the first rating of each beatmap that has any. Each is given as
/// (beatmap, rating).
pub open spec fn matched_sources(beatmaps: Seq<Vec<String>>, calculator: Seq<char>) -> Seq<(int, int)>
    decreases beatmaps.len(),
{
    if beatmaps.len() == 0 {
        Seq::empty()
    } else {
        let rest = matched_sources(beatmaps.drop_last(), calculator);
        match first_match(name_views(beatmaps.last()@), calculator) {
            Some(k) => rest.push((beatmaps.len() - 1, k)),
            None => rest,
        }
    }
}

/// The first rating of each beatmap that has any, as (beatmap, 0).
pub open spec fn fallback_sources(beatmaps: Seq<Vec<String>>) -> Seq<(int, int)>
    decreases beatmaps.len(),
{
    if beatmaps.len() == 0 {
        Seq::empty()
    } else {
        let rest = fallback_sources(beatmaps.drop_last());
        if beatmaps.last()@.len() > 0 {
            rest.push((beatmaps.len() - 1, 0))
        } else {
            rest
        }
    }
}

/// Pairs of positions, as integers.
pub open spec fn index_pairs(s: Seq<(usize, usize)>) -> Seq<(int, int)>
    decreases s.len(),
{
    if s.len() == 0 {
        Seq::empty()
    } else {
        index_pairs(s.drop_last()).push((s.last().0 as int, s.last().1 as int))
    }
}

/// The ratings that a song's difficulty range spans.
pub open spec fn range_sources(beatmaps: Seq<Vec<String>>, calculator: Seq<char>) -> Seq<(int, int)> {
    if matched_sources(beatmaps, calculator).len() > 0 {
        matched_sources(beatmaps, calculator)
    } else {
        fallback_sources(beatmaps)
    }
}

/// The (beatmap, rating) pairs whose overall values give a song's
/// difficulty range; `beatmaps[b]` lists the calculator names of beatmap
/// `b`'s ratings. No pair means no range.
pub fn difficulty_range_sources(beatmaps: &Vec<Vec<String>>, calculator: &str) -> (r: Vec<(usize, usize)>)
    ensures
        index_pairs(r@) == range_sources(beatmaps@, calculator@),
{
    let mut matched: Vec<(usize, usize)> = Vec::new();
    let mut fallback: Vec<(usize, usize)> = Vec::new();
    let mut b: usize = 0;
    assert(beatmaps@.take(0) =~= Seq::<Vec<String>>::empty());
    while b < beatmaps.len()
        invariant
            b <= beatmaps@.len(),
            index_pairs(matched@) == matched_sources(beatmaps@.take(b as int), calculator@),
            index_pairs(fallback@) == fallback_sources(beatmaps@.take(b as int)),
        decreases beatmaps.len() - b,
    {
        let ghost t = beatmaps@.take((b + 1) as int);
        assert(t.drop_last() =~= beatmaps@.take(b as int));
        assert(t.last() == beatmaps@[b as int]);
        let found = find_rating(Some(&beatmaps[b]), calculator);
        let ghost before = matched@;
        let ghost fbefore = fallback@;
        match found {
            Some(k) => {
                matched.push((b, k));
                assert(matched@.drop_last() =~= before);
            },
            None => {},
        }
        let nb = beatmaps[b].len();
        if nb > 0 {
            fallback.push((b, 0));
            assert(fallback@.drop_last() =~= fbefore);
        }
        proof {
            let fm = first_match(name_views(beatmaps@[b as int]@), calculator@);
            lemma_first_match(name_views(beatmaps@[b as int]@), calculator@);
            assert(name_views(t.last()@) == name_views(beatmaps@[b as int]@));
            match fm {
                Some(k) => {
                    assert(found == Some(k as usize));
                    assert(matched@.last() == (b, k as usize));
                    assert(index_pairs(matched@) == index_pairs(before).push((b as int, k)));
                },
                None => {
                    assert(found is None);
                    assert(matched@ == before);
                },
            }
        }
        assert(index_pairs(matched@) == matched_sources(t, calculator@));
        assert(index_pairs(fallback@) == fallback_sources(t));
        b = b + 1;
    }
    assert(beatmaps@.take(beatmaps@.len() as int) =~= beatmaps@);
    if matched.len() > 0 {
        matched
    } else {
        fallback
    }
}

/// A difficulty calculator that the beatmap panel offers.
#[derive(Clone, Debug)]
pub struct CalculatorOption {
    pub id: String,
    pub display_name: String,
}

impl CalculatorOption {
    pub fn new(id: &str, display_name: &str) -> (r: Self)
        ensures
            r.id@ == id@,
            r.display_name@ == display_name@,
    {
        CalculatorOption { id: String::from_str(id), display_name: String::from_str(display_name) }
    }
}

/// Default calculators (builtin).
pub fn default_calculators() -> (r: Vec<CalculatorOption>)
    ensures
        r@.len() == 2,
        r@[0].id@ == "etterna"@,
        r@[0].display_name@ == "Etterna"@,
        r@[1].id@ == "osu"@,
        r@[1].display_name@ == "osu!"@,
{
    vec![CalculatorOption::new("etterna", "Etterna"), CalculatorOption::new("osu", "osu!")]
}

/// The name the calculator selector shows: the display name of the first
/// calculator whose id is `active`, or `active` itself.
pub open spec fn calculator_name_spec(options: Seq<CalculatorOption>, active: Seq<char>) -> Seq<char>
    decreases options.len(),
{
    if options.len() == 0 {
        active
    } else if options[0].id@ == active {
        options[0].display_name@
    } else {
        calculator_name_spec(options.skip(1), active)
    }
}

/// The name the calculator selector shows.
pub fn calculator_display_name(options: &Vec<CalculatorOption>, active: &str) -> (r: String)
    ensures
        r@ == calculator_name_spec(options@, active@),
{
    let mut i: usize = 0;
    assert(options@.skip(0) =~= options@);
    while i < options.len()
        invariant
            i <= options@.len(),
            calculator_name_spec(options@.skip(i as int), active@) == calculator_name_spec(options@, active@),
        decreases options.len() - i,
    {
        assert(options@.skip(i as int).skip(1) =~= options@.skip(i + 1));
        assert(options@.skip(i as int)[0] == options@[i as int]);
        if str_eq(options[i].id.as_str(), active) {
            return options[i].display_name.clone();
        }
        i = i + 1;
    }
    assert(options@.skip(i as int) =~= Seq::<CalculatorOption>::empty());
    String::from_str(active)
}

/// The calculator a click in the selector switches to: the clicked one,
/// unless it is already active.
pub fn calculator_change(active: &str, clicked: &CalculatorOption) -> (r: Option<String>)
    ensures
        r matches Some(id) ==> id@ == clicked.id@,
        r is None <==> clicked.id@ == active@,
{
    if str_eq(clicked.id.as_str(), active) {
        None
    } else {
        Some(clicked.id.clone())
    }
}

/// Message emitted by the search panel when the user applies filters; `F`
/// is the filter set.
pub enum SearchPanelEvent<F> {
    /// The filters were not applied this frame.
    Nothing,
    Apply(F),
}

/// The number on the filters header: how many of the four range filters
/// (minimum and maximum rating, minimum and maximum duration) are set.
pub fn active_filter_count(min_rating: bool, max_rating: bool, min_duration: bool, max_duration: bool) -> (r: usize)
    ensures
        r == (if min_rating { 1int } else { 0int }) + (if max_rating { 1int } else { 0int }) + (
        if min_duration { 1int } else { 0int }) + (if max_duration { 1int } else { 0int }),
{
    let mut r: usize = 0;
    if min_rating {
        r = r + 1;
    }
    if max_rating {
        r = r + 1;
    }
    if min_duration {
        r = r + 1;
    }
    if max_duration {
        r = r + 1;
    }
    r
}

} // verus!
