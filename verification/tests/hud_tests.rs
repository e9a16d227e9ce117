use rvsrg::hud::{
    flash_text, format_clock, judgement_panel_lines, notes_remaining_text, progress_mode, time_left_text,
    HitHistory, HitMarker, TimeDisplayMode,
};
use rvsrg::model::{HitStats, Judgement, JudgementLabels};

fn labels() -> JudgementLabels {
    JudgementLabels {
        marv: "Marvelous".into(),
        perfect: "Perfect".into(),
        great: "Great".into(),
        good: "Good".into(),
        bad: "Bad".into(),
        miss: "Miss".into(),
        ghost_tap: "Ghost".into(),
    }
}

#[test]
fn panel_lines_in_judgement_order() {
    let stats = HitStats { marv: 100, perfect: 50, great: 3, good: 0, bad: 1, miss: 2, ghost_tap: 7 };
    let lines = judgement_panel_lines(&labels(), &stats);
    assert_eq!(
        lines,
        vec!["Marvelous: 100", "Perfect: 50", "Great: 3", "Good: 0", "Bad: 1", "Miss: 2", "Ghost: 7"]
    );
    assert_eq!(HitStats::new().count(Judgement::Miss), 0);
    assert_eq!(labels().label(Judgement::GhostTap), "Ghost");
}

#[test]
fn flash_marks_early_and_late() {
    assert_eq!(flash_text("Great", true, Some(-20_000)), "- Great");
    assert_eq!(flash_text("Great", true, Some(20_000)), "Great +");
    assert_eq!(flash_text("Great", true, Some(3_000)), "Great +");
    assert_eq!(flash_text("Great", true, Some(-2_000)), "- Great");
    assert_eq!(flash_text("Great", true, Some(0)), "Great +");
    assert_eq!(flash_text("Great", true, None), "Great");
    assert_eq!(flash_text("Great", false, Some(-20_000)), "Great");
}

#[test]
fn hit_history_keeps_the_latest() {
    let mut h = HitHistory::new(3);
    let hit = |t: i64| HitMarker { timing_us: t, judgement: Judgement::Great };
    h.push_hit(hit(1));
    h.push_hit(hit(1));
    assert_eq!(h.hits_vec(), &vec![hit(1)]);
    h.push_hit(hit(2));
    h.push_hit(hit(3));
    h.push_hit(hit(4));
    assert_eq!(h.hits_vec(), &vec![hit(2), hit(3), hit(4)]);
    h.push_hit(HitMarker { timing_us: 4, judgement: Judgement::Bad });
    assert_eq!(h.hits_vec().last(), Some(&HitMarker { timing_us: 4, judgement: Judgement::Bad }));
    assert_eq!(h.hits_vec().len(), 3);
}

#[test]
fn hit_history_of_zero_keeps_nothing() {
    let mut h = HitHistory::new(0);
    h.push_hit(HitMarker { timing_us: 0, judgement: Judgement::Marv });
    assert!(h.hits_vec().is_empty());
}

#[test]
fn notes_remaining_text_replaces_both_placeholders() {
    assert_eq!(notes_remaining_text("Notes: {count}", 150), "Notes: 150");
    assert_eq!(notes_remaining_text("{remaining} left ({count})", 3), "3 left (3)");
    assert_eq!(notes_remaining_text("plain", 3), "plain");
}

#[test]
fn clock_is_minutes_and_two_digit_seconds() {
    assert_eq!(format_clock(0), "0:00");
    assert_eq!(format_clock(65), "1:05");
    assert_eq!(format_clock(600), "10:00");
    assert_eq!(format_clock(3599), "59:59");
}

#[test]
fn time_left_text_fills_the_format() {
    assert_eq!(time_left_text("{elapsed} / {total}", 65, 55, 120, 54), "1:05 / 2:00");
    assert_eq!(time_left_text("{remaining} ({percent})", 65, 55, 120, 54), "0:55 (54%)");
}

#[test]
fn progress_mode_only_for_shapes() {
    assert_eq!(progress_mode(true, TimeDisplayMode::Bar), Some(0));
    assert_eq!(progress_mode(true, TimeDisplayMode::Circle), Some(1));
    assert_eq!(progress_mode(true, TimeDisplayMode::Text), None);
    assert_eq!(progress_mode(false, TimeDisplayMode::Bar), None);
}
