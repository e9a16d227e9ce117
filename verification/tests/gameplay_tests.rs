use rvsrg::gameplay::{
    head_pinned, note_visuals, pack_instances, GameplayView, InstanceRange, NoteInstance, NoteKind,
    NoteVisual, PlayfieldDisplay, NUM_COLUMNS,
};

fn note(column: usize, visual: NoteVisual, instance: u32) -> NoteInstance<u32> {
    NoteInstance { column, visual, instance }
}

#[test]
fn playfield_display_keeps_config() {
    let p = PlayfieldDisplay::new(42u8);
    assert_eq!(p.config, 42);
    let old = rvsrg::playfield::PlayfieldDisplay::new("cfg");
    assert_eq!(old.config, "cfg");
}

#[test]
fn gameplay_view_starts_empty_and_exposes_playfield() {
    let mut view: GameplayView<u32, u8> = GameplayView::new(PlayfieldDisplay::new(7));
    assert!(view.instance_buffer().is_empty());
    assert_eq!(view.playfield_component().config, 7);
    view.playfield_component_mut().config = 9;
    assert_eq!(view.playfield_component().config, 9);
}

#[test]
fn pack_groups_columns_then_specials() {
    let notes = vec![
        note(1, NoteVisual::Tap, 10),
        note(0, NoteVisual::HoldBody, 20),
        note(0, NoteVisual::Tap, 11),
        note(3, NoteVisual::Mine, 30),
        note(1, NoteVisual::Tap, 12),
        note(2, NoteVisual::HoldEnd, 40),
        note(9, NoteVisual::Tap, 99),
        note(2, NoteVisual::BurstEnd, 50),
        note(2, NoteVisual::BurstBody, 60),
    ];
    let mut out = vec![1234u32];
    let layout = pack_instances(&mut out, &notes);
    assert_eq!(out, vec![11, 10, 12, 30, 20, 40, 60, 50]);
    assert_eq!(layout.columns.len(), NUM_COLUMNS);
    assert_eq!(layout.columns[0], InstanceRange { offset: 0, count: 1 });
    assert_eq!(layout.columns[1], InstanceRange { offset: 1, count: 2 });
    assert_eq!(layout.columns[2], InstanceRange { offset: 3, count: 0 });
    assert_eq!(layout.columns[3], InstanceRange { offset: 3, count: 0 });
    assert_eq!(layout.mines, InstanceRange { offset: 3, count: 1 });
    assert_eq!(layout.hold_bodies, InstanceRange { offset: 4, count: 1 });
    assert_eq!(layout.hold_ends, InstanceRange { offset: 5, count: 1 });
    assert_eq!(layout.burst_bodies, InstanceRange { offset: 6, count: 1 });
    assert_eq!(layout.burst_ends, InstanceRange { offset: 7, count: 1 });
    // Only the tap of the column the playfield lacks is left out.
    assert_eq!(out.len() + 1, notes.len());
}

#[test]
fn prepare_instances_refills_the_buffer() {
    let mut view: GameplayView<u32, ()> = GameplayView::new(PlayfieldDisplay::new(()));
    view.prepare_instances(&vec![note(0, NoteVisual::Tap, 1), note(0, NoteVisual::Mine, 2)]);
    assert_eq!(view.instance_buffer(), &vec![1, 2]);
    let layout = view.prepare_instances(&vec![]);
    assert!(view.instance_buffer().is_empty());
    assert_eq!(layout.burst_ends, InstanceRange { offset: 0, count: 0 });
}

#[test]
fn head_is_pinned_only_for_active_long_notes_below_the_line() {
    assert!(head_pinned(NoteKind::Hold { is_held: true }, true));
    assert!(!head_pinned(NoteKind::Hold { is_held: true }, false));
    assert!(!head_pinned(NoteKind::Hold { is_held: false }, true));
    assert!(head_pinned(NoteKind::Burst { current_hits: 2 }, true));
    assert!(!head_pinned(NoteKind::Burst { current_hits: 0 }, true));
    assert!(!head_pinned(NoteKind::Tap, true));
    assert!(!head_pinned(NoteKind::Mine, true));
}

#[test]
fn note_visuals_follow_drawing_order() {
    assert_eq!(note_visuals(NoteKind::Tap, false, true), vec![NoteVisual::Tap]);
    assert_eq!(note_visuals(NoteKind::Mine, true, true), vec![NoteVisual::Mine]);
    assert_eq!(
        note_visuals(NoteKind::Hold { is_held: false }, false, true),
        vec![NoteVisual::HoldBody, NoteVisual::Tap, NoteVisual::HoldEnd]
    );
    assert_eq!(
        note_visuals(NoteKind::Hold { is_held: true }, true, false),
        vec![NoteVisual::HoldEnd]
    );
    assert_eq!(
        note_visuals(NoteKind::Burst { current_hits: 1 }, true, true),
        vec![NoteVisual::BurstBody, NoteVisual::BurstEnd]
    );
    assert_eq!(
        note_visuals(NoteKind::Burst { current_hits: 0 }, false, false),
        vec![NoteVisual::Tap, NoteVisual::BurstEnd]
    );
}
