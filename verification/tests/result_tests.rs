use rvsrg::model::{HitStats, HitWindow, Judgement};
use rvsrg::result::{
    combo_text, first_hits, hits_recorded_text, index_range, judged_total, judgement_debug_name,
    padded_score, result_judgement_lines, timing_judgement, ResultScreen,
};

fn window() -> HitWindow {
    HitWindow {
        marv_us: 16_000,
        perfect_us: 40_000,
        great_us: 73_000,
        good_us: 103_000,
        bad_us: 127_000,
        miss_us: 164_000,
    }
}

#[test]
fn result_lines_use_debug_names() {
    let _ = ResultScreen::new();
    let stats = HitStats { marv: 1, perfect: 2, great: 3, good: 4, bad: 5, miss: 6, ghost_tap: 9 };
    assert_eq!(
        result_judgement_lines(&stats),
        vec!["Marv: 1", "Perfect: 2", "Great: 3", "Good: 4", "Bad: 5", "Miss: 6"]
    );
    for j in [Judgement::Marv, Judgement::GhostTap, Judgement::Miss] {
        assert_eq!(judgement_debug_name(j), format!("{:?}", j));
    }
}

#[test]
fn score_and_combo_texts() {
    assert_eq!(padded_score(42), "0000042");
    assert_eq!(padded_score(1_000_000), "1000000");
    assert_eq!(padded_score(12_345_678), "12345678");
    assert_eq!(combo_text(321), "321x");
    assert_eq!(hits_recorded_text(12), "12 hits recorded");
}

#[test]
fn judged_total_leaves_out_ghost_taps() {
    let stats = HitStats { marv: 1, perfect: 2, great: 3, good: 4, bad: 5, miss: 6, ghost_tap: 100 };
    assert_eq!(judged_total(&stats), 21);
}

#[test]
fn timing_judgement_by_windows() {
    let w = window();
    assert_eq!(timing_judgement(0, &w), Judgement::Marv);
    assert_eq!(timing_judgement(16_000, &w), Judgement::Marv);
    assert_eq!(timing_judgement(-16_001, &w), Judgement::Perfect);
    assert_eq!(timing_judgement(73_000, &w), Judgement::Great);
    assert_eq!(timing_judgement(-100_000, &w), Judgement::Good);
    assert_eq!(timing_judgement(127_000, &w), Judgement::Bad);
    assert_eq!(timing_judgement(127_001, &w), Judgement::Miss);
    assert_eq!(timing_judgement(i64::MIN, &w), Judgement::Miss);
}

#[test]
fn first_hits_keep_the_earliest_per_note() {
    let notes = vec![3, 1, 3, 2, 1, 5];
    assert_eq!(first_hits(&notes), vec![0, 1, 3, 5]);
    assert!(first_hits(&vec![]).is_empty());
}

#[test]
fn index_range_gives_min_and_max() {
    assert_eq!(index_range(&vec![3, 1, 7, 2]), Some((1, 7)));
    assert_eq!(index_range(&vec![4]), Some((4, 4)));
    assert_eq!(index_range(&vec![]), None);
}
