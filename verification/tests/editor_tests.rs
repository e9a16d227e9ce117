use rvsrg::editor::{
    column_label, column_labels, column_section_title, element_from_id, file_display_text,
    is_inspectable, movement_targets, pick_element, preview_target, viewport_elements, AssetBrowser,
    EditorScene, ElementInspector, GamePreviewViewport, PositionTarget, SkinElement,
};
use rvsrg::model::Judgement;

#[test]
fn editor_scene_names() {
    assert_eq!(EditorScene::Gameplay4K.name(), "Gameplay (4K)");
    assert_eq!(EditorScene::Gameplay7K.name(), "Gameplay (7K)");
    assert_eq!(EditorScene::SongSelect.name(), "Song Select");
    assert_eq!(EditorScene::ResultScreen.name(), "Result Screen");
}

#[test]
fn editor_panels_construct() {
    let _ = AssetBrowser::new();
    let _ = ElementInspector::new();
    let _ = GamePreviewViewport::new();
}

#[test]
fn element_ids_round_trip() {
    let all = [
        SkinElement::NotesDefault, SkinElement::HoldBody, SkinElement::HoldEnd, SkinElement::BurstBody,
        SkinElement::BurstEnd, SkinElement::Mines, SkinElement::ReceptorsDefault, SkinElement::HitBar,
        SkinElement::Playfield, SkinElement::Columns4K, SkinElement::Columns5K, SkinElement::Columns6K,
        SkinElement::Columns7K, SkinElement::ScoreDisplay, SkinElement::ComboCounter, SkinElement::Accuracy,
        SkinElement::NpsDisplay, SkinElement::NotesRemaining, SkinElement::ScrollSpeed, SkinElement::TimeLeft,
        SkinElement::FlashAll, SkinElement::FlashMarvelous, SkinElement::FlashPerfect, SkinElement::FlashGreat,
        SkinElement::FlashGood, SkinElement::FlashBad, SkinElement::FlashMiss, SkinElement::FlashGhostTap,
        SkinElement::JudgementPanel, SkinElement::Background, SkinElement::SongButton,
        SkinElement::SongButtonSelected, SkinElement::DifficultyButton, SkinElement::SearchBar,
        SkinElement::SearchPanel, SkinElement::BeatmapInfo, SkinElement::Leaderboard, SkinElement::PanelStyle,
        SkinElement::SkinInfo, SkinElement::Font,
    ];
    for e in all {
        assert_eq!(element_from_id(e.id()), Some(e));
    }
}

#[test]
fn element_from_id_known_and_unknown() {
    assert_eq!(element_from_id("💣 Mines"), Some(SkinElement::Mines));
    assert_eq!(element_from_id("⏱️ Time Left"), Some(SkinElement::TimeLeft));
    assert_eq!(element_from_id("Mines"), None);
    assert_eq!(element_from_id(""), None);
}

#[test]
fn flash_all_moves_all_seven_flashes() {
    let all = movement_targets(SkinElement::FlashAll);
    let expected: Vec<PositionTarget> = [
        Judgement::Marv, Judgement::Perfect, Judgement::Great, Judgement::Good, Judgement::Bad,
        Judgement::Miss, Judgement::GhostTap,
    ]
    .into_iter()
    .map(PositionTarget::Flash)
    .collect();
    assert_eq!(all, expected);
    assert_eq!(movement_targets(SkinElement::FlashGood), vec![PositionTarget::Flash(Judgement::Good)]);
    assert_eq!(movement_targets(SkinElement::ReceptorsDefault), vec![PositionTarget::Playfield]);
    assert!(movement_targets(SkinElement::Font).is_empty());
}

#[test]
fn preview_box_and_drag_agree() {
    assert_eq!(preview_target(SkinElement::FlashAll), Some(PositionTarget::Flash(Judgement::Marv)));
    assert_eq!(preview_target(SkinElement::NotesDefault), Some(PositionTarget::Playfield));
    assert_eq!(preview_target(SkinElement::Background), None);
    assert!(movement_targets(SkinElement::Background).is_empty());
}

#[test]
fn pick_element_takes_first_hit() {
    let n = viewport_elements().len();
    assert_eq!(n, 18);
    let mut hits = vec![false; n];
    assert_eq!(pick_element(&hits), None);
    hits[11] = true;
    hits[12] = true;
    assert_eq!(pick_element(&hits), Some(SkinElement::FlashAll));
    hits[0] = true;
    assert_eq!(pick_element(&hits), Some(SkinElement::NotesDefault));
}

#[test]
fn viewport_elements_are_all_editable() {
    for e in viewport_elements() {
        assert!(is_inspectable(e));
        assert!(!movement_targets(e).is_empty());
    }
    assert!(!is_inspectable(SkinElement::Background));
}

#[test]
fn column_editor_texts() {
    assert_eq!(column_section_title(4), "🎹 4K Column Configuration");
    assert_eq!(column_label(0, 4), "Column 1 (4K)");
    assert_eq!(column_labels(3), vec!["Column 1 (3K)", "Column 2 (3K)", "Column 3 (3K)"]);
    assert!(column_labels(0).is_empty());
}

#[test]
fn file_display_text_shows_file_name_or_none() {
    assert_eq!(file_display_text("Note Image", &Some("skins/x/note.png".to_string())), "Note Image: note.png");
    assert_eq!(file_display_text("Font File (.ttf)", &None), "Font File (.ttf): None");
}
