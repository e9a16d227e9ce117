//! The gameplay HUD: the texts of the judgement panel, the judgement flash,
//! the remaining-notes counter and the time display, and the hit bar's
//! history of recent hits.
use vstd::prelude::*;
use vstd::string::*;

use crate::model::{judgement_order, judgements_in_order, HitStats, Judgement, JudgementLabels};
use crate::text::{decimal, format_u64, pad_left, pad_left_str, push_decimal, replace_all, replace_spec};

verus! {

/// One line of the judgement panel: "label: count".
pub open spec fn panel_line(label: Seq<char>, count: u32) -> Seq<char> {
    label + ": "@ + decimal(count as nat)
}

/// The judgement panel's lines, one per judgement in panel order.
pub fn judgement_panel_lines(labels: &JudgementLabels, stats: &HitStats) -> (r: Vec<String>)
    ensures
        r@.len() == judgement_order().len(),
        forall|i: int|
            0 <= i < r@.len() ==> #[trigger] r@[i]@ == panel_line(
                labels.label_spec(judgement_order()[i]),
                stats.count_spec(judgement_order()[i]),
            ),
{
    let order = judgements_in_order();
    let mut r: Vec<String> = Vec::new();
    let mut i: usize = 0;
    while i < order.len()
        invariant
            order@ == judgement_order(),
            i <= order@.len(),
            r@.len() == i,
            forall|k: int|
                0 <= k < i ==> #[trigger] r@[k]@ == panel_line(
                    labels.label_spec(judgement_order()[k]),
                    stats.count_spec(judgement_order()[k]),
                ),
        decreases order.len() - i,
    {
        let j = order[i];
        let mut line = String::from_str(labels.label(j));
        line.append(": ");
        push_decimal(&mut line, stats.count(j) as u64);
        r.push(line);
        i = i + 1;
    }
    r
}

/// Whether the flash marks the hit early ("- " before the label) and late
/// (" +" after it): a negative offset is early, any other late, and neither
/// is shown unless timing display is on and the hit has an offset.
pub open spec fn flash_marks(show_timing: bool, timing_us: Option<i64>) -> (bool, bool) {
    match timing_us {
        Some(t) if show_timing => (t < 0, t >= 0),
        _ => (false, false),
    }
}

/// The text of the judgement flash.
pub open spec fn flash_text_spec(label: Seq<char>, show_timing: bool, timing_us: Option<i64>) -> Seq<
    char,
> {
    let (early, late) = flash_marks(show_timing, timing_us);
    (if early {
        "- "@
    } else {
        Seq::empty()
    }) + label + (if late {
        " +"@
    } else {
        Seq::empty()
    })
}

/// The text of the judgement flash: the judgement's label, with the early
/// and late marks where timing display is on. `timing_us` is the hit's
/// offset from the note in microseconds, negative when early.
pub fn flash_text(label: &str, show_timing: bool, timing_us: Option<i64>) -> (r: String)
    ensures
        r@ == flash_text_spec(label@, show_timing, timing_us),
{
    let mut early = false;
    let mut late = false;
    if show_timing {
        if let Some(t) = timing_us {
            early = t < 0;
            late = t >= 0;
        }
    }
    let mut r = String::new();
    if early {
        r.append("- ");
    }
    r.append(label);
    if late {
        r.append(" +");
    }
    assert(r@ =~= flash_text_spec(label@, show_timing, timing_us));
    r
}

/// An early mark only ever goes with a hit before the note and a late mark
/// with one at or after it, never both; with timing display on, a hit with
/// an offset always gets one of them; with timing display off the flash is
/// the bare label.
pub proof fn lemma_flash_marks_follow_timing(label: Seq<char>, show_timing: bool, timing_us: Option<i64>)
    ensures
        flash_marks(show_timing, timing_us).0 ==> (timing_us matches Some(t) && t < 0),
        flash_marks(show_timing, timing_us).1 ==> (timing_us matches Some(t) && t >= 0),
        show_timing && timing_us is Some ==> (flash_marks(show_timing, timing_us).0 || flash_marks(
            show_timing,
            timing_us,
        ).1),
        !(flash_marks(show_timing, timing_us).0 && flash_marks(show_timing, timing_us).1),
        !show_timing ==> flash_text_spec(label, show_timing, timing_us) == label,
{
    if !show_timing {
        assert(Seq::<char>::empty() + label + Seq::<char>::empty() =~= label);
    }
}

/// A hit as the hit bar shows it: its offset from the note in
/// microseconds and its judgement.
#[derive(Debug, Clone, Copy, PartialEq, Eq, Structural)]
pub struct HitMarker {
    pub timing_us: i64,
    pub judgement: Judgement,
}

/// The history after a hit is reported: a hit equal to the last one is not
/// added again; otherwise it is appended and the oldest dropped when the
/// history would exceed `max`.
pub open spec fn history_after(hits: Seq<HitMarker>, max: nat, hit: HitMarker) -> Seq<HitMarker> {
    if hits.len() > 0 && hits.last() == hit {
        hits
    } else if hits.len() + 1 > max {
        hits.push(hit).skip(1)
    } else {
        hits.push(hit)
    }
}

/// The recent hits that the hit bar draws, newest last.
pub struct HitHistory {
    hits: Vec<HitMarker>,
    max_history: usize,
}

impl HitHistory {
    /// The hits held, oldest first.
    pub closed spec fn hits(&self) -> Seq<HitMarker> {
        self.hits@
    }

    /// How many hits the history keeps.
    pub closed spec fn max(&self) -> nat {
        self.max_history as nat
    }

    /// The history holds no more hits than it keeps.
    pub closed spec fn wf(&self) -> bool {
        self.hits@.len() <= self.max_history
    }

    /// An empty history that keeps the `max_history` latest hits.
    pub fn new(max_history: usize) -> (r: Self)
        ensures
            r.wf(),
            r.hits() == Seq::<HitMarker>::empty(),
            r.max() == max_history,
            r.hits().len() <= r.max(),
    {
        HitHistory { hits: Vec::new(), max_history }
    }

    /// Reports a hit.
    pub fn push_hit(&mut self, hit: HitMarker)
        requires
            old(self).wf(),
        ensures
            final(self).wf(),
            final(self).max() == old(self).max(),
            final(self).hits() == history_after(old(self).hits(), old(self).max(), hit),
            final(self).hits().len() <= final(self).max(),
    {
        let n = self.hits.len();
        let is_new = if n > 0 {
            self.hits[n - 1] != hit
        } else {
            true
        };
        if is_new {
            self.hits.push(hit);
            if self.hits.len() > self.max_history {
                self.hits.remove(0);
                assert(self.hits@ =~= old(self).hits@.push(hit).skip(1));
            }
        }
    }

    /// The hits held, oldest first.
    pub fn hits_vec(&self) -> (r: &Vec<HitMarker>)
        ensures
            r@ == self.hits(),
    {
        &self.hits
    }
}

/// Reporting the same hit twice in a row leaves the history as reporting it
/// once.
pub proof fn lemma_history_idempotent(hits: Seq<HitMarker>, max: nat, hit: HitMarker)
    requires
        max > 0,
        hits.len() <= max,
    ensures
        history_after(history_after(hits, max, hit), max, hit) == history_after(hits, max, hit),
        history_after(hits, max, hit).last() == hit,
        history_after(hits, max, hit).len() <= max,
{
}

/// The remaining-notes text: the format with `{remaining}` and `{count}`
/// replaced by the number of notes left.
pub open spec fn notes_remaining_text_spec(format: Seq<char>, remaining: usize) -> Seq<char> {
    replace_spec(
        replace_spec(format, "{remaining}"@, decimal(remaining as nat)),
        "{count}"@,
        decimal(remaining as nat),
    )
}

/// The remaining-notes text.
pub fn notes_remaining_text(format: &str, remaining: usize) -> (r: String)
    ensures
        r@ == notes_remaining_text_spec(format@, remaining),
{
    proof {
        reveal_strlit("{remaining}");
        reveal_strlit("{count}");
    }
    let count = format_u64(remaining as u64);
    let first = replace_all(format, "{remaining}", count.as_str());
    replace_all(first.as_str(), "{count}", count.as_str())
}

/// How the time display shows the song's progress.
#[derive(Debug, Clone, Copy, PartialEq, Eq, Structural)]
pub enum TimeDisplayMode {
    Bar,
    Circle,
    Text,
}

/// "m:ss" for a number of seconds.
pub open spec fn clock_text(total_seconds: u32) -> Seq<char> {
    decimal((total_seconds / 60) as nat) + ":"@ + pad_left(decimal((total_seconds % 60) as nat), 2, '0')
}

/// "m:ss" for a number of seconds, as the time display prints it.
pub fn format_clock(total_seconds: u32) -> (r: String)
    ensures
        r@ == clock_text(total_seconds),
{
    proof {
        reveal_strlit("0");
    }
    let mut r = format_u64((total_seconds / 60) as u64);
    r.append(":");
    let seconds = format_u64((total_seconds % 60) as u64);
    let padded = pad_left_str(seconds.as_str(), 2, "0");
    r.append(padded.as_str());
    r
}

/// The time text: the format with `{elapsed}`, `{remaining}` and `{total}`
/// replaced by clock texts and `{percent}` by the percentage.
pub open spec fn time_left_text_spec(
    format: Seq<char>,
    elapsed_seconds: u32,
    remaining_seconds: u32,
    total_seconds: u32,
    percent: u64,
) -> Seq<char> {
    replace_spec(
        replace_spec(
            replace_spec(
                replace_spec(format, "{elapsed}"@, clock_text(elapsed_seconds)),
                "{remaining}"@,
                clock_text(remaining_seconds),
            ),
            "{total}"@,
            clock_text(total_seconds),
        ),
        "{percent}"@,
        decimal(percent as nat) + "%"@,
    )
}

/// The time text of the time display.
pub fn time_left_text(
    format: &str,
    elapsed_seconds: u32,
    remaining_seconds: u32,
    total_seconds: u32,
    percent: u64,
) -> (r: String)
    ensures
        r@ == time_left_text_spec(format@, elapsed_seconds, remaining_seconds, total_seconds, percent),
{
    proof {
        reveal_strlit("{elapsed}");
        reveal_strlit("{remaining}");
        reveal_strlit("{total}");
        reveal_strlit("{percent}");
    }
    let elapsed = format_clock(elapsed_seconds);
    let remaining = format_clock(remaining_seconds);
    let total = format_clock(total_seconds);
    let mut pct = format_u64(percent);
    pct.append("%");
    let a = replace_all(format, "{elapsed}", elapsed.as_str());
    let b = replace_all(a.as_str(), "{remaining}", remaining.as_str());
    let c = replace_all(b.as_str(), "{total}", total.as_str());
    replace_all(c.as_str(), "{percent}", pct.as_str())
}

/// The shader mode of the progress shape: 0 for a bar, 1 for a circle; no
/// shape in text mode or when the display is hidden.
pub open spec fn progress_mode_spec(visible: bool, mode: TimeDisplayMode) -> Option<u32> {
    if !visible {
        None
    } else {
        match mode {
            TimeDisplayMode::Bar => Some(0),
            TimeDisplayMode::Circle => Some(1),
            TimeDisplayMode::Text => None,
        }
    }
}

/// The shader mode of the progress shape, if one is drawn.
pub fn progress_mode(visible: bool, mode: TimeDisplayMode) -> (r: Option<u32>)
    ensures
        r == progress_mode_spec(visible, mode),
{
    if !visible {
        return None;
    }
    match mode {
        TimeDisplayMode::Bar => Some(0),
        TimeDisplayMode::Circle => Some(1),
        TimeDisplayMode::Text => None,
    }
}

} // verus!
