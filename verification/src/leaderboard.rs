//! The leaderboard of the song select screen: which scores it lists, the
//! rank badge, the judgement pills and how long ago a score was set.
use vstd::prelude::*;
use vstd::string::*;

use crate::model::{HitStats, Judgement};
use crate::text::{decimal, format_u64, push_decimal, str_eq};

verus! {

/// The leaderboard lists at most this many scores.
pub const MAX_SHOWN_SCORES: usize = 10;

/// A card of the leaderboard.
pub struct LeaderboardCard;

/// How many scores the leaderboard lists.
pub fn shown_score_count(len: usize) -> (r: usize)
    ensures
        r == if len < MAX_SHOWN_SCORES {
            len
        } else {
            MAX_SHOWN_SCORES
        },
{
    if len < MAX_SHOWN_SCORES {
        len
    } else {
        MAX_SHOWN_SCORES
    }
}

/// Whether a gap follows the `i`-th listed card: every card but the last
/// listed one has one.
pub fn gap_after_card(i: usize, len: usize) -> (r: bool)
    ensures
        r == (i + 1 < (if len < MAX_SHOWN_SCORES {
            len
        } else {
            MAX_SHOWN_SCORES
        })),
{
    let shown = shown_score_count(len);
    if shown == 0 {
        false
    } else {
        i < shown - 1
    }
}

/// Whether the scores loaded for the leaderboard belong to the beatmap
/// shown: the leaderboard keeps them only then and is emptied otherwise.
pub fn leaderboard_belongs_to(leaderboard_hash: &Option<String>, beatmap_hash: &str) -> (r: bool)
    ensures
        r == (leaderboard_hash matches Some(h) && h@ == beatmap_hash@),
{
    match leaderboard_hash {
        Some(h) => str_eq(h.as_str(), beatmap_hash),
        None => false,
    }
}

/// The badge of a rank: gold, silver and bronze for the first three.
#[derive(Debug, Clone, Copy, PartialEq, Eq, Structural)]
pub enum RankTier {
    Gold,
    Silver,
    Bronze,
    Other,
}

/// The badge of the card at position `rank` (0 is the best score).
pub fn rank_tier(rank: usize) -> (r: RankTier)
    ensures
        r == if rank == 0 {
            RankTier::Gold
        } else if rank == 1 {
            RankTier::Silver
        } else if rank == 2 {
            RankTier::Bronze
        } else {
            RankTier::Other
        },
{
    if rank == 0 {
        RankTier::Gold
    } else if rank == 1 {
        RankTier::Silver
    } else if rank == 2 {
        RankTier::Bronze
    } else {
        RankTier::Other
    }
}

/// The rank text of the card at position `rank`: "#1" for the first.
pub fn rank_label(rank: usize) -> (r: String)
    requires
        rank < usize::MAX,
    ensures
        r@ == "#"@ + decimal((rank + 1) as nat),
{
    let mut r = String::from_str("#");
    push_decimal(&mut r, (rank + 1) as u64);
    r
}

/// The judgements whose counts a card shows as pills, in order.
pub open spec fn pill_judgements() -> Seq<Judgement> {
    seq![
        Judgement::Marv,
        Judgement::Perfect,
        Judgement::Great,
        Judgement::Good,
        Judgement::Bad,
        Judgement::Miss,
    ]
}

/// The pills among `js`: the judgements with a count above zero, with
/// their counts.
pub open spec fn pills_spec(stats: HitStats, js: Seq<Judgement>) -> Seq<(Judgement, u32)>
    decreases js.len(),
{
    if js.len() == 0 {
        Seq::empty()
    } else {
        let rest = pills_spec(stats, js.drop_last());
        if stats.count_spec(js.last()) > 0 {
            rest.push((js.last(), stats.count_spec(js.last())))
        } else {
            rest
        }
    }
}

/// The place of a judgement from marvelous (0) to ghost tap (6).
pub open spec fn pill_rank(j: Judgement) -> int {
    match j {
        Judgement::Marv => 0,
        Judgement::Perfect => 1,
        Judgement::Great => 2,
        Judgement::Good => 3,
        Judgement::Bad => 4,
        Judgement::Miss => 5,
        Judgement::GhostTap => 6,
    }
}

proof fn lemma_pills_of(stats: HitStats, js: Seq<Judgement>)
    requires
        forall|a: int, b: int| 0 <= a < b < js.len() ==> pill_rank(#[trigger] js[a]) < pill_rank(#[trigger] js[b]),
    ensures
        forall|p: int|
            0 <= p < pills_spec(stats, js).len() ==> js.contains(#[trigger] pills_spec(stats, js)[p].0)
                && pills_spec(stats, js)[p].1 == stats.count_spec(pills_spec(stats, js)[p].0)
                && pills_spec(stats, js)[p].1 > 0,
        forall|p: int, q: int|
            0 <= p < q < pills_spec(stats, js).len() ==> pill_rank(#[trigger] pills_spec(stats, js)[p].0)
                < pill_rank(#[trigger] pills_spec(stats, js)[q].0),
        forall|k: int|
            0 <= k < js.len() && stats.count_spec(#[trigger] js[k]) > 0 ==> pills_spec(stats, js).contains(
                (js[k], stats.count_spec(js[k])),
            ),
    decreases js.len(),
{
    if js.len() > 0 {
        let t = js.drop_last();
        let x = js.last();
        assert forall|a: int, b: int| 0 <= a < b < t.len() implies pill_rank(#[trigger] t[a]) < pill_rank(
            #[trigger] t[b],
        ) by {
            assert(t[a] == js[a] && t[b] == js[b]);
        }
        lemma_pills_of(stats, t);
        let rest = pills_spec(stats, t);
        let all = pills_spec(stats, js);
        assert forall|p: int| 0 <= p < rest.len() implies pill_rank(#[trigger] rest[p].0) < pill_rank(x) by {
            assert(t.contains(rest[p].0));
            let a = choose|a: int| 0 <= a < t.len() && t[a] == rest[p].0;
            assert(js[a] == t[a]);
            assert(pill_rank(js[a]) < pill_rank(js[js.len() - 1]));
        }
        assert forall|p: int| 0 <= p < rest.len() implies js.contains(#[trigger] rest[p].0) by {
            let a = choose|a: int| 0 <= a < t.len() && t[a] == rest[p].0;
            assert(js[a] == t[a]);
        }
        if stats.count_spec(x) > 0 {
            assert(all == rest.push((x, stats.count_spec(x))));
            assert forall|p: int| 0 <= p < all.len() implies js.contains(#[trigger] all[p].0) && all[p].1
                == stats.count_spec(all[p].0) && all[p].1 > 0 by {
                if p < rest.len() {
                    assert(all[p] == rest[p]);
                } else {
                    assert(js[js.len() - 1] == x);
                }
            }
            assert forall|p: int, q: int| 0 <= p < q < all.len() implies pill_rank(#[trigger] all[p].0) < pill_rank(
                #[trigger] all[q].0,
            ) by {
                assert(all[p] == rest[p]);
                if q < rest.len() {
                    assert(all[q] == rest[q]);
                }
            }
            assert forall|k: int| 0 <= k < js.len() && stats.count_spec(#[trigger] js[k]) > 0 implies all.contains(
                (js[k], stats.count_spec(js[k])),
            ) by {
                if k < t.len() {
                    assert(t[k] == js[k]);
                    let p = choose|p: int| 0 <= p < rest.len() && rest[p] == (t[k], stats.count_spec(t[k]));
                    assert(all[p] == rest[p]);
                } else {
                    assert(all[rest.len() as int] == (x, stats.count_spec(x)));
                }
            }
        } else {
            assert(all == rest);
            assert forall|k: int| 0 <= k < js.len() && stats.count_spec(#[trigger] js[k]) > 0 implies all.contains(
                (js[k], stats.count_spec(js[k])),
            ) by {
                assert(k < t.len());
                assert(t[k] == js[k]);
            }
        }
    }
}

/// A card shows a pill for each judgement but ghost taps whose count is
/// above zero, with that count, and no other pill; the pills go from
/// marvelous to miss.
pub proof fn lemma_pills_nonzero_in_order(stats: HitStats)
    ensures
        forall|j: Judgement|
            j != Judgement::GhostTap && stats.count_spec(j) > 0 ==> #[trigger] pills_spec(
                stats,
                pill_judgements(),
            ).contains((j, stats.count_spec(j))),
        forall|p: int|
            0 <= p < pills_spec(stats, pill_judgements()).len() ==> {
                let pill = #[trigger] pills_spec(stats, pill_judgements())[p];
                &&& pill.0 != Judgement::GhostTap
                &&& pill.1 == stats.count_spec(pill.0)
                &&& pill.1 > 0
            },
        forall|p: int, q: int|
            0 <= p < q < pills_spec(stats, pill_judgements()).len() ==> pill_rank(
                #[trigger] pills_spec(stats, pill_judgements())[p].0,
            ) < pill_rank(#[trigger] pills_spec(stats, pill_judgements())[q].0),
{
    let js = pill_judgements();
    assert forall|a: int, b: int| 0 <= a < b < js.len() implies pill_rank(#[trigger] js[a]) < pill_rank(
        #[trigger] js[b],
    ) by {}
    lemma_pills_of(stats, js);
    assert(!js.contains(Judgement::GhostTap));
    assert forall|j: Judgement| j != Judgement::GhostTap && stats.count_spec(j) > 0 implies #[trigger] pills_spec(
        stats,
        js,
    ).contains((j, stats.count_spec(j))) by {
        let k: int = match j {
            Judgement::Marv => 0,
            Judgement::Perfect => 1,
            Judgement::Great => 2,
            Judgement::Good => 3,
            Judgement::Bad => 4,
            _ => 5,
        };
        assert(js[k] == j);
    }
}

/// The judgement pills of a card: each judgement but ghost taps whose count
/// is above zero, in order.
pub fn stat_pills(stats: &HitStats) -> (r: Vec<(Judgement, u32)>)
    ensures
        r@ == pills_spec(*stats, pill_judgements()),
{
    let js = vec![
        Judgement::Marv,
        Judgement::Perfect,
        Judgement::Great,
        Judgement::Good,
        Judgement::Bad,
        Judgement::Miss,
    ];
    assert(js@ =~= pill_judgements());
    let mut r: Vec<(Judgement, u32)> = Vec::new();
    let mut i: usize = 0;
    assert(js@.take(0) =~= Seq::<Judgement>::empty());
    while i < js.len()
        invariant
            i <= js@.len(),
            js@ == pill_judgements(),
            r@ == pills_spec(*stats, js@.take(i as int)),
        decreases js.len() - i,
    {
        assert(js@.take((i + 1) as int).drop_last() =~= js@.take(i as int));
        let j = js[i];
        let c = stats.count(j);
        if c > 0 {
            r.push((j, c));
        }
        i = i + 1;
    }
    assert(js@.take(js@.len() as int) =~= js@);
    r
}

/// How long ago a score was set, from the seconds elapsed since.
pub open spec fn elapsed_text_spec(diff: int) -> Seq<char> {
    if diff < 60 {
        "Just now"@
    } else if diff < 3600 {
        decimal((diff / 60) as nat) + "m ago"@
    } else if diff < 86400 {
        decimal((diff / 3600) as nat) + "h ago"@
    } else if diff < 604800 {
        decimal((diff / 86400) as nat) + "d ago"@
    } else {
        decimal((diff / 604800) as nat) + "w ago"@
    }
}

/// How long ago a score set at `timestamp` was, at time `now`.
pub open spec fn elapsed_text_at(now: int, timestamp: int) -> Seq<char> {
    elapsed_text_spec(now - timestamp)
}

/// How long ago a score set at `timestamp` was, at time `now` (both in
/// seconds since the Unix epoch).
pub fn elapsed_text(now: u64, timestamp: i64) -> (r: String)
    ensures
        r@ == elapsed_text_at(now as int, timestamp as int),
{
    let diff: i128 = now as i128 - timestamp as i128;
    if diff < 60 {
        String::from_str("Just now")
    } else if diff < 3600 {
        let mut r = format_u64((diff / 60) as u64);
        r.append("m ago");
        r
    } else if diff < 86400 {
        let mut r = format_u64((diff / 3600) as u64);
        r.append("h ago");
        r
    } else if diff < 604800 {
        let mut r = format_u64((diff / 86400) as u64);
        r.append("d ago");
        r
    } else {
        let mut r = format_u64((diff / 604800) as u64);
        r.append("w ago");
        r
    }
}

/// The clock's reading, a `SystemTime` of std.
#[verifier::external_type_specification]
#[verifier::external_body]
pub struct ExSystemTime(std::time::SystemTime);

/// Reads the clock through `SystemTime::now` of std. Nothing is stated of
/// the value: it is the time.
#[verifier::external_body]
fn system_time_now() -> (r: std::time::SystemTime) {
    std::time::SystemTime::now()
}

/// The time from the Unix epoch to `t`, through
/// `SystemTime::duration_since(UNIX_EPOCH)` of std; `None` when `t` is
/// before the epoch. Nothing is stated of the value: `SystemTime` is opaque
/// here.
#[verifier::external_body]
fn duration_since_epoch(t: &std::time::SystemTime) -> (r: Option<std::time::Duration>) {
    match t.duration_since(std::time::UNIX_EPOCH) {
        Ok(d) => Some(d),
        Err(_) => None,
    }
}

/// The whole seconds of `d`, through `Duration::as_secs` of std. Nothing is
/// stated of the value: `Duration` is opaque here.
#[verifier::external_body]
fn whole_seconds(d: &std::time::Duration) -> (r: u64) {
    d.as_secs()
}

/// How long ago a score set at `timestamp` was, at the current time. A clock
/// set before the epoch reads as the epoch.
pub fn format_date(timestamp: i64) -> (r: String)
    ensures
        exists|now: int| 0 <= now <= u64::MAX && r@ == #[trigger] elapsed_text_at(now, timestamp as int),
{
    let now: u64 = match duration_since_epoch(&system_time_now()) {
        Some(d) => whole_seconds(&d),
        None => 0,
    };
    elapsed_text(now, timestamp)
}

} // verus!
