use rvsrg::leaderboard::{
    elapsed_text, format_date, gap_after_card, leaderboard_belongs_to, rank_label, rank_tier,
    shown_score_count, stat_pills, RankTier,
};
use rvsrg::model::{HitStats, Judgement};

#[test]
fn at_most_ten_scores_with_gaps_between() {
    assert_eq!(shown_score_count(3), 3);
    assert_eq!(shown_score_count(25), 10);
    assert!(gap_after_card(0, 3));
    assert!(gap_after_card(1, 3));
    assert!(!gap_after_card(2, 3));
    assert!(gap_after_card(8, 25));
    assert!(!gap_after_card(9, 25));
    assert!(!gap_after_card(0, 0));
}

#[test]
fn leaderboard_only_for_its_beatmap() {
    assert!(leaderboard_belongs_to(&Some("abc".to_string()), "abc"));
    assert!(!leaderboard_belongs_to(&Some("abc".to_string()), "abd"));
    assert!(!leaderboard_belongs_to(&None, "abc"));
}

#[test]
fn rank_badges() {
    assert_eq!(rank_tier(0), RankTier::Gold);
    assert_eq!(rank_tier(1), RankTier::Silver);
    assert_eq!(rank_tier(2), RankTier::Bronze);
    assert_eq!(rank_tier(3), RankTier::Other);
    assert_eq!(rank_label(0), "#1");
    assert_eq!(rank_label(9), "#10");
}

#[test]
fn pills_for_nonzero_counts_only() {
    let stats = HitStats { marv: 5, perfect: 0, great: 2, good: 0, bad: 0, miss: 1, ghost_tap: 4 };
    assert_eq!(
        stat_pills(&stats),
        vec![(Judgement::Marv, 5), (Judgement::Great, 2), (Judgement::Miss, 1)]
    );
    assert!(stat_pills(&HitStats::new()).is_empty());
}

#[test]
fn elapsed_texts_by_unit() {
    assert_eq!(elapsed_text(1000, 1000), "Just now");
    assert_eq!(elapsed_text(1000, 2000), "Just now");
    assert_eq!(elapsed_text(1059, 1000), "Just now");
    assert_eq!(elapsed_text(1060, 1000), "1m ago");
    assert_eq!(elapsed_text(3599, 0), "59m ago");
    assert_eq!(elapsed_text(3600, 0), "1h ago");
    assert_eq!(elapsed_text(86_399, 0), "23h ago");
    assert_eq!(elapsed_text(86_400 * 3, 0), "3d ago");
    assert_eq!(elapsed_text(604_800 * 5, 0), "5w ago");
    assert_eq!(elapsed_text(u64::MAX, i64::MIN), format!("{}w ago", (u64::MAX as i128 - i64::MIN as i128) / 604_800));
}

#[test]
fn format_date_reads_the_clock() {
    let now = std::time::SystemTime::now()
        .duration_since(std::time::UNIX_EPOCH)
        .unwrap()
        .as_secs() as i64;
    assert_eq!(format_date(now), "Just now");
    let old = format_date(now - 3 * 86_400 - 10);
    assert_eq!(old, "3d ago");
}
