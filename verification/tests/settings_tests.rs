use rvsrg::menu::{main_menu_action, MainMenuAction};
use rvsrg::settings::{keybind_row, skin_choices, sort_by_mode};

fn strings(v: &[&str]) -> Vec<String> {
    v.iter().map(|s| s.to_string()).collect()
}

#[test]
fn skin_choices_put_default_first_once() {
    assert_eq!(skin_choices(&strings(&["neon", "default", "classic"])), strings(&["default", "neon", "classic"]));
    assert_eq!(skin_choices(&vec![]), strings(&["default"]));
}

#[test]
fn key_modes_sorted_stably_by_number() {
    let sorted = sort_by_mode(strings(&["7", "x", "4", "10", "y", "5"]));
    assert_eq!(sorted, strings(&["x", "y", "4", "5", "7", "10"]));
    let mut expected = strings(&["7", "x", "4", "10", "y", "5"]);
    expected.sort_by_key(|k| k.parse::<usize>().unwrap_or(0));
    assert_eq!(sorted, expected);
}

#[test]
fn keybind_rows() {
    let row = keybind_row(&"4".to_string(), &strings(&["D", "F", "J", "K"]), None, 0).unwrap();
    assert_eq!(row.key_count, 4);
    assert_eq!(row.label, " 4K");
    assert_eq!(row.keys_text, "D, F, J, K");
    assert!(row.listening.is_none());
    let row = keybind_row(&"10".to_string(), &vec![], Some(10), 3).unwrap();
    assert_eq!(row.label, "10K");
    assert_eq!(row.keys_text, "(no keys set)");
    assert_eq!(row.listening.as_deref(), Some("Listening... 3/10"));
    let row = keybind_row(&"7".to_string(), &vec![], Some(4), 1).unwrap();
    assert!(row.listening.is_none());
    assert!(keybind_row(&"seven".to_string(), &vec![], None, 0).is_none());
}

#[test]
fn main_menu_quit_wins() {
    assert_eq!(main_menu_action(false, false), MainMenuAction::Nothing);
    assert_eq!(main_menu_action(true, false), MainMenuAction::Play);
    assert_eq!(main_menu_action(false, true), MainMenuAction::Quit);
    assert_eq!(main_menu_action(true, true), MainMenuAction::Quit);
}
