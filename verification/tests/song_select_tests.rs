use rvsrg::song_select::{
    active_filter_count, beatmap_rating_index, calculator_change, calculator_display_name,
    card_artist_difficulty_text, card_difficulty_index, card_title_text, default_calculators,
    difficulty_range_sources, difficulty_row_names, find_rating, row_offsets, visible_rows,
    CalculatorOption, SearchPanelEvent, SongList,
};

fn names(v: &[&str]) -> Vec<String> {
    v.iter().map(|s| s.to_string()).collect()
}

#[test]
fn row_offsets_expand_the_selected_song() {
    let (offsets, total) = row_offsets(&vec![1, 3, 2], 1);
    assert_eq!(offsets, vec![0, 88, 88 + 88 + 78]);
    assert_eq!(total, 88 * 3 + 78);
    let (offsets, total) = row_offsets(&vec![1, 3, 2], 0);
    assert_eq!(offsets, vec![0, 88, 176]);
    assert_eq!(total, 264);
    assert_eq!(row_offsets(&vec![], 0), (vec![], 0));
}

#[test]
fn visible_rows_cover_the_viewport() {
    let offsets = vec![0, 88, 176, 264, 352];
    assert_eq!(visible_rows(&offsets, 100, 300), (2, 4));
    assert_eq!(visible_rows(&offsets, 0, 0), (0, 1));
    assert_eq!(visible_rows(&offsets, 1000, 2000), (0, 5));
    assert_eq!(visible_rows(&offsets, -50, 87), (0, 1));
}

#[test]
fn song_list_selection_and_fade() {
    let mut list = SongList::new();
    assert_eq!(list.row_highlight(0), 100);
    assert!(list.take_scroll_request(0));
    assert!(!list.take_scroll_request(0));
    list.set_current(0);
    assert!(!list.take_scroll_request(0));
    list.set_current(4);
    assert_eq!(list.row_highlight(4), 0);
    assert_eq!(list.row_highlight(0), 100);
    let mut frames = 0;
    while list.advance_animation() {
        frames += 1;
    }
    assert_eq!(frames, 7);
    assert_eq!(list.row_highlight(4), 100);
    assert_eq!(list.row_highlight(0), 0);
    assert!(list.take_scroll_request(4));
    list.set_scroll_to(9);
    assert!(list.take_scroll_request(4));
    list.set_visible_range(1, 3);
}

#[test]
fn card_texts() {
    assert_eq!(card_title_text(&Some("Song".into())), "Song");
    assert_eq!(card_title_text(&None), "Unknown Title");
    let diffs = vec![Some("Easy".to_string()), None, Some("Hard".to_string())];
    assert_eq!(card_artist_difficulty_text(&Some("Artist".into()), &diffs, 0), "Artist | Easy (1/3)");
    assert_eq!(card_artist_difficulty_text(&Some("Artist".into()), &diffs, 1), "Artist | Unknown (2/3)");
    assert_eq!(card_artist_difficulty_text(&None, &diffs, 7), "Unknown Artist | Hard (8/3)");
    assert_eq!(card_artist_difficulty_text(&None, &vec![Some("Only".into())], 0), "Unknown Artist | Only");
    assert_eq!(card_artist_difficulty_text(&None, &vec![], 0), "Unknown Artist | Unknown");
    assert_eq!(difficulty_row_names(&diffs), vec!["Easy", "Unknown", "Hard"]);
}

#[test]
fn card_difficulty_index_clamps() {
    assert_eq!(card_difficulty_index(true, 1, 3), 1);
    assert_eq!(card_difficulty_index(true, 9, 3), 2);
    assert_eq!(card_difficulty_index(true, 9, 0), 0);
    assert_eq!(card_difficulty_index(false, 2, 3), 0);
}

#[test]
fn rating_lookup_ignores_ascii_case() {
    let r = names(&["osu", "Etterna"]);
    assert_eq!(find_rating(Some(&r), "etterna"), Some(1));
    assert_eq!(find_rating(Some(&r), "ETTERNA"), Some(1));
    assert_eq!(find_rating(Some(&r), "custom"), None);
    assert_eq!(find_rating(None, "osu"), None);
    assert_eq!(beatmap_rating_index(&r, "custom"), Some(0));
    assert_eq!(beatmap_rating_index(&Vec::new(), "osu"), None);
}

#[test]
fn difficulty_range_prefers_the_calculator() {
    let maps = vec![names(&["osu", "etterna"]), names(&[]), names(&["Etterna"]), names(&["osu"])];
    assert_eq!(difficulty_range_sources(&maps, "etterna"), vec![(0, 1), (2, 0)]);
    assert_eq!(difficulty_range_sources(&maps, "custom"), vec![(0, 0), (2, 0), (3, 0)]);
    assert!(difficulty_range_sources(&vec![names(&[])], "osu").is_empty());
}

#[test]
fn calculator_selector() {
    let opts = default_calculators();
    assert_eq!(opts.len(), 2);
    assert_eq!((opts[0].id.as_str(), opts[0].display_name.as_str()), ("etterna", "Etterna"));
    assert_eq!((opts[1].id.as_str(), opts[1].display_name.as_str()), ("osu", "osu!"));
    assert_eq!(calculator_display_name(&opts, "osu"), "osu!");
    assert_eq!(calculator_display_name(&opts, "custom"), "custom");
    let c = CalculatorOption::new("x", "X");
    assert_eq!(calculator_change("x", &c), None);
    assert_eq!(calculator_change("osu", &c), Some("x".to_string()));
}

#[test]
fn filter_count_and_events() {
    assert_eq!(active_filter_count(false, false, false, false), 0);
    assert_eq!(active_filter_count(true, false, true, true), 3);
    let e: SearchPanelEvent<u8> = SearchPanelEvent::Apply(3);
    assert!(matches!(e, SearchPanelEvent::Apply(3)));
    assert!(matches!(SearchPanelEvent::<u8>::Nothing, SearchPanelEvent::Nothing));
}
