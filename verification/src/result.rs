//! The result screen: its stats texts, the judgement a hit's timing earns,
//! and which hits the timing graph plots.
use vstd::prelude::*;
use vstd::string::*;

use crate::model::{HitStats, HitWindow, Judgement};
use crate::text::{decimal, format_u64, pad_left, pad_left_str, push_decimal};

verus! {

/// The result screen overlay.
pub struct ResultScreen;

impl ResultScreen {
    pub fn new() -> (r: Self) {
        ResultScreen
    }
}

/// The name that `{:?}` prints for a judgement.
pub open spec fn judgement_debug_name_spec(j: Judgement) -> Seq<char> {
    match j {
        Judgement::Marv => "Marv"@,
        Judgement::Perfect => "Perfect"@,
        Judgement::Great => "Great"@,
        Judgement::Good => "Good"@,
        Judgement::Bad => "Bad"@,
        Judgement::Miss => "Miss"@,
        Judgement::GhostTap => "GhostTap"@,
    }
}

/// The name that `{:?}` prints for a judgement.
pub fn judgement_debug_name(j: Judgement) -> (r: &'static str)
    ensures
        r@ == judgement_debug_name_spec(j),
{
    match j {
        Judgement::Marv => "Marv",
        Judgement::Perfect => "Perfect",
        Judgement::Great => "Great",
        Judgement::Good => "Good",
        Judgement::Bad => "Bad",
        Judgement::Miss => "Miss",
        Judgement::GhostTap => "GhostTap",
    }
}

/// The judgements that the result view lists (ghost taps are not).
pub open spec fn result_judgements() -> Seq<Judgement> {
    seq![
        Judgement::Marv,
        Judgement::Perfect,
        Judgement::Great,
        Judgement::Good,
        Judgement::Bad,
        Judgement::Miss,
    ]
}

/// The result view's judgement lines, "Name: count", in order.
pub fn result_judgement_lines(stats: &HitStats) -> (r: Vec<String>)
    ensures
        r@.len() == 6,
        forall|i: int|
            0 <= i < 6 ==> #[trigger] r@[i]@ == judgement_debug_name_spec(result_judgements()[i])
                + ": "@ + decimal(stats.count_spec(result_judgements()[i]) as nat),
{
    let order = vec![
        Judgement::Marv,
        Judgement::Perfect,
        Judgement::Great,
        Judgement::Good,
        Judgement::Bad,
        Judgement::Miss,
    ];
    assert(order@ =~= result_judgements());
    let mut r: Vec<String> = Vec::new();
    let mut i: usize = 0;
    while i < order.len()
        invariant
            order@ == result_judgements(),
            i <= order@.len(),
            r@.len() == i,
            forall|k: int|
                0 <= k < i ==> #[trigger] r@[k]@ == judgement_debug_name_spec(result_judgements()[k])
                    + ": "@ + decimal(stats.count_spec(result_judgements()[k]) as nat),
        decreases order.len() - i,
    {
        let j = order[i];
        let mut line = String::from_str(judgement_debug_name(j));
        line.append(": ");
        push_decimal(&mut line, stats.count(j) as u64);
        r.push(line);
        i = i + 1;
    }
    r
}

/// The score as the stats panel prints it: at least seven digits, zero
/// padded (`{:07}`).
pub fn padded_score(score: u32) -> (r: String)
    ensures
        r@ == pad_left(decimal(score as nat), 7, '0'),
{
    proof {
        reveal_strlit("0");
    }
    let digits = format_u64(score as u64);
    pad_left_str(digits.as_str(), 7, "0")
}

/// The max combo as the stats panel prints it: "123x".
pub fn combo_text(max_combo: u32) -> (r: String)
    ensures
        r@ == decimal(max_combo as nat) + "x"@,
{
    let mut r = format_u64(max_combo as u64);
    r.append("x");
    r
}

/// The number of judged notes: all judgements but ghost taps.
pub open spec fn judged_total_spec(stats: HitStats) -> int {
    stats.marv + stats.perfect + stats.great + stats.good + stats.bad + stats.miss
}

/// The number of judged notes, by which the judgement bars are scaled.
pub fn judged_total(stats: &HitStats) -> (r: u32)
    requires
        judged_total_spec(*stats) <= u32::MAX,
    ensures
        r == judged_total_spec(*stats),
{
    stats.marv + stats.perfect + stats.great + stats.good + stats.bad + stats.miss
}

/// The judgement whose window holds a hit `timing_us` microseconds off its
/// note: the first window, from the tightest, that the offset (either way)
/// does not exceed; a miss beyond the bad window.
pub open spec fn timing_judgement_spec(timing_us: i64, window: HitWindow) -> Judgement {
    let a = if timing_us < 0 {
        -timing_us
    } else {
        timing_us as int
    };
    if a <= window.marv_us {
        Judgement::Marv
    } else if a <= window.perfect_us {
        Judgement::Perfect
    } else if a <= window.great_us {
        Judgement::Great
    } else if a <= window.good_us {
        Judgement::Good
    } else if a <= window.bad_us {
        Judgement::Bad
    } else {
        Judgement::Miss
    }
}

/// The judgement whose window holds a hit's offset; the graphs color each
/// hit by it.
pub fn timing_judgement(timing_us: i64, window: &HitWindow) -> (r: Judgement)
    ensures
        r == timing_judgement_spec(timing_us, *window),
{
    let a: i128 = if timing_us < 0 {
        -(timing_us as i128)
    } else {
        timing_us as i128
    };
    if a <= window.marv_us as i128 {
        Judgement::Marv
    } else if a <= window.perfect_us as i128 {
        Judgement::Perfect
    } else if a <= window.great_us as i128 {
        Judgement::Great
    } else if a <= window.good_us as i128 {
        Judgement::Good
    } else if a <= window.bad_us as i128 {
        Judgement::Bad
    } else {
        Judgement::Miss
    }
}

/// The place of a judgement from best (0) to worst.
pub open spec fn judgement_rank(j: Judgement) -> int {
    match j {
        Judgement::Marv => 0,
        Judgement::Perfect => 1,
        Judgement::Great => 2,
        Judgement::Good => 3,
        Judgement::Bad => 4,
        Judgement::Miss => 5,
        Judgement::GhostTap => 6,
    }
}

/// The windows widen from marvelous to bad.
pub open spec fn windows_widen(w: HitWindow) -> bool {
    w.marv_us <= w.perfect_us <= w.great_us <= w.good_us <= w.bad_us
}

/// A hit further from its note never earns a better judgement.
pub proof fn lemma_timing_judgement_monotone(a: i64, b: i64, w: HitWindow)
    requires
        windows_widen(w),
        0 <= a <= b,
    ensures
        judgement_rank(timing_judgement_spec(a, w)) <= judgement_rank(timing_judgement_spec(b, w)),
{
}

/// An early hit and a late hit the same distance from the note earn the
/// same judgement.
pub proof fn lemma_timing_judgement_symmetric(a: i64, w: HitWindow)
    requires
        a > i64::MIN,
    ensures
        timing_judgement_spec(a, w) == timing_judgement_spec(-a as i64, w),
{
}

/// The positions of the hits that the timing graph plots: of the hits of
/// each note, the first.
pub open spec fn first_hit_positions(notes: Seq<usize>) -> Seq<int>
    decreases notes.len(),
{
    if notes.len() == 0 {
        Seq::empty()
    } else {
        let rest = first_hit_positions(notes.drop_last());
        if notes.drop_last().contains(notes.last()) {
            rest
        } else {
            rest.push(notes.len() - 1)
        }
    }
}

/// The positions of the first hit of each note, in order (`notes[i]` is the
/// note that the `i`-th hit hit).
pub fn first_hits(notes: &Vec<usize>) -> (r: Vec<usize>)
    ensures
        r@.map_values(|p: usize| p as int) == first_hit_positions(notes@),
{
    let mut r: Vec<usize> = Vec::new();
    let mut i: usize = 0;
    assert(notes@.take(0) =~= Seq::<usize>::empty());
    while i < notes.len()
        invariant
            i <= notes@.len(),
            r@.map_values(|p: usize| p as int) == first_hit_positions(notes@.take(i as int)),
        decreases notes.len() - i,
    {
        let ghost t = notes@.take((i + 1) as int);
        assert(t.drop_last() =~= notes@.take(i as int));
        let mut seen = false;
        let mut k: usize = 0;
        while k < i
            invariant
                k <= i,
                i < notes@.len(),
                seen <==> exists|m: int| 0 <= m < k && notes@[m] == notes@[i as int],
            decreases i - k,
        {
            if notes[k] == notes[i] {
                seen = true;
            }
            k = k + 1;
        }
        assert(seen <==> notes@.take(i as int).contains(notes@[i as int])) by {
            if seen {
                let m = choose|m: int| 0 <= m < i && notes@[m] == notes@[i as int];
                assert(notes@.take(i as int)[m] == notes@[i as int]);
            }
        }
        if !seen {
            r.push(i);
        }
        assert(r@.map_values(|p: usize| p as int) =~= first_hit_positions(t));
        i = i + 1;
    }
    assert(notes@.take(notes@.len() as int) =~= notes@);
    r
}

/// The plotted positions: increasing, within the hits, each a hit whose
/// note no earlier hit hit, and every such hit among them.
proof fn lemma_first_hit_positions(notes: Seq<usize>)
    ensures
        forall|a: int, b: int|
            0 <= a < b < first_hit_positions(notes).len() ==> #[trigger] first_hit_positions(notes)[a]
                < #[trigger] first_hit_positions(notes)[b],
        forall|a: int|
            0 <= a < first_hit_positions(notes).len() ==> 0 <= #[trigger] first_hit_positions(notes)[a]
                < notes.len() && !notes.take(first_hit_positions(notes)[a]).contains(
                notes[first_hit_positions(notes)[a]],
            ),
        forall|i: int|
            0 <= i < notes.len() && !notes.take(i).contains(notes[i]) ==> #[trigger] first_hit_positions(
                notes,
            ).contains(i),
    decreases notes.len(),
{
    if notes.len() > 0 {
        let t = notes.drop_last();
        lemma_first_hit_positions(t);
        let p = first_hit_positions(t);
        let q = first_hit_positions(notes);
        assert forall|a: int| 0 <= a < p.len() implies notes.take(p[a]) =~= t.take(p[a]) && notes[p[a]]
            == t[p[a]] by {}
        assert(notes.take(notes.len() - 1) =~= t);
        assert forall|i: int|
            0 <= i < notes.len() && !notes.take(i).contains(notes[i]) implies #[trigger] q.contains(i) by {
            if i < t.len() {
                assert(notes.take(i) =~= t.take(i));
                assert(p.contains(i));
                let a = choose|a: int| 0 <= a < p.len() && p[a] == i;
                assert(q[a] == i);
            } else {
                assert(q[p.len() as int] == i);
            }
        }
    }
}

/// The plotted hits are one per note: their notes differ, and every note
/// that was hit is plotted.
pub proof fn lemma_first_hits_one_per_note(notes: Seq<usize>)
    ensures
        forall|a: int, b: int|
            0 <= a < b < first_hit_positions(notes).len() ==> notes[#[trigger] first_hit_positions(
                notes,
            )[a]] != notes[#[trigger] first_hit_positions(notes)[b]],
        forall|i: int|
            0 <= i < notes.len() ==> exists|a: int|
                0 <= a < first_hit_positions(notes).len() && notes[#[trigger] first_hit_positions(
                    notes,
                )[a]] == #[trigger] notes[i],
        forall|a: int|
            0 <= a < first_hit_positions(notes).len() ==> 0 <= #[trigger] first_hit_positions(
                notes,
            )[a] < notes.len(),
{
    lemma_first_hit_positions(notes);
    let q = first_hit_positions(notes);
    assert forall|a: int, b: int| 0 <= a < b < q.len() implies notes[#[trigger] q[a]] != notes[#[trigger] q[b]] by {
        assert(q[a] < q[b]);
        assert(notes.take(q[b])[q[a]] == notes[q[a]]);
    }
    assert forall|i: int| 0 <= i < notes.len() implies exists|a: int|
        0 <= a < q.len() && notes[#[trigger] q[a]] == #[trigger] notes[i] by {
        let m = lemma_first_occurrence(notes, i);
        assert(q.contains(m));
        let a = choose|a: int| 0 <= a < q.len() && q[a] == m;
        assert(notes[q[a]] == notes[i]);
    }
}

/// Every hit's note was first hit at some hit no later.
proof fn lemma_first_occurrence(notes: Seq<usize>, i: int) -> (m: int)
    requires
        0 <= i < notes.len(),
    ensures
        0 <= m <= i,
        notes[m] == notes[i],
        !notes.take(m).contains(notes[i]),
    decreases i,
{
    if notes.take(i).contains(notes[i]) {
        let k = choose|k: int| 0 <= k < notes.take(i).len() && notes.take(i)[k] == notes[i];
        assert(notes[k] == notes[i]);
        lemma_first_occurrence(notes, k)
    } else {
        i
    }
}

/// The smallest and the largest of the values, if there are any: the graph
/// spreads the plotted hits between the first and the last note hit.
pub fn index_range(values: &Vec<usize>) -> (r: Option<(usize, usize)>)
    ensures
        r is None <==> values@.len() == 0,
        r matches Some((lo, hi)) ==> values@.contains(lo) && values@.contains(hi) && forall|i: int|
            0 <= i < values@.len() ==> lo <= #[trigger] values@[i] <= hi,
{
    if values.len() == 0 {
        return None;
    }
    let mut lo = values[0];
    let mut hi = values[0];
    let mut i: usize = 1;
    while i < values.len()
        invariant
            1 <= i <= values@.len(),
            values@.contains(lo),
            values@.contains(hi),
            forall|k: int| 0 <= k < i ==> lo <= #[trigger] values@[k] <= hi,
        decreases values.len() - i,
    {
        let v = values[i];
        if v < lo {
            lo = v;
        }
        if v > hi {
            hi = v;
        }
        i = i + 1;
    }
    Some((lo, hi))
}

/// The line under the timing graph: "n hits recorded".
pub fn hits_recorded_text(count: usize) -> (r: String)
    ensures
        r@ == decimal(count as nat) + " hits recorded"@,
{
    let mut r = format_u64(count as u64);
    r.append(" hits recorded");
    r
}

} // verus!
