use rvsrg::text::{
    after_last_separator_str, eq_ignore_ascii_case, format_u64, join, pad_left_str, parse_usize,
    replace_all, str_eq, trim_label_start,
};

#[test]
fn format_u64_gives_decimal_digits() {
    assert_eq!(format_u64(0), "0");
    assert_eq!(format_u64(7), "7");
    assert_eq!(format_u64(10), "10");
    assert_eq!(format_u64(1234567890), "1234567890");
    assert_eq!(format_u64(u64::MAX), u64::MAX.to_string());
}

#[test]
fn parse_usize_accepts_what_std_accepts() {
    assert_eq!(parse_usize("4"), Some(4));
    assert_eq!(parse_usize("007"), Some(7));
    assert_eq!(parse_usize("+12"), Some(12));
    assert_eq!(parse_usize(&usize::MAX.to_string()), Some(usize::MAX));
}

#[test]
fn parse_usize_refuses_what_std_refuses() {
    for s in ["", "+", "-1", "4K", " 4", "1_000", "++1", "99999999999999999999999"] {
        assert_eq!(parse_usize(s), s.parse::<usize>().ok(), "{s:?}");
        assert_eq!(parse_usize(s), None, "{s:?}");
    }
}

#[test]
fn parse_reads_back_format() {
    for n in [0usize, 1, 9, 10, 99, 100, 65535, usize::MAX] {
        assert_eq!(parse_usize(&format_u64(n as u64)), Some(n));
    }
}

#[test]
fn str_eq_compares_characters() {
    assert!(str_eq("Flash - All", "Flash - All"));
    assert!(!str_eq("Flash - All", "Flash - all"));
    assert!(!str_eq("abc", "abcd"));
    assert!(str_eq("💣 Mines", "💣 Mines"));
}

#[test]
fn eq_ignore_ascii_case_matches_std() {
    for (a, b) in [("Etterna", "etterna"), ("OSU", "osu"), ("osu", "osu!"), ("É", "é"), ("", "")] {
        assert_eq!(eq_ignore_ascii_case(a, b), a.eq_ignore_ascii_case(b), "{a:?} {b:?}");
    }
}

#[test]
fn replace_all_matches_std_replace() {
    let cases = [
        ("Notes: {count}", "{count}", "150"),
        ("{count}{count}", "{count}", "x"),
        ("aaaa", "aa", "b"),
        ("no placeholder", "{count}", "1"),
        ("{elapsed} / {total}", "{total}", "3:05"),
    ];
    for (s, p, w) in cases {
        assert_eq!(replace_all(s, p, w), s.replace(p, w));
    }
}

#[test]
fn replace_with_itself_changes_nothing() {
    assert_eq!(replace_all("{a}{a}b{a}", "{a}", "{a}"), "{a}{a}b{a}");
}

#[test]
fn pad_left_pads_short_text_only() {
    assert_eq!(pad_left_str("4", 2, " "), " 4");
    assert_eq!(pad_left_str("12", 2, " "), "12");
    assert_eq!(pad_left_str("123", 2, " "), "123");
    assert_eq!(pad_left_str("42", 7, "0"), "0000042");
}

#[test]
fn join_puts_separator_between() {
    let items: Vec<String> = vec!["D".into(), "F".into(), "J".into(), "K".into()];
    assert_eq!(join(&items, ", "), "D, F, J, K");
    assert_eq!(join(&Vec::new(), ", "), "");
    assert_eq!(join(&vec!["only".to_string()], ", "), "only");
}

#[test]
fn after_last_separator_gives_file_name() {
    assert_eq!(after_last_separator_str("skins/default/note.png"), "note.png");
    assert_eq!(after_last_separator_str("C:\\skins\\font.ttf"), "font.ttf");
    assert_eq!(after_last_separator_str("note.png"), "note.png");
    assert_eq!(after_last_separator_str("dir/"), "");
}

#[test]
fn trim_label_start_drops_icons() {
    for id in ["💣 Mines", "📊 Hit Bar", "⏱️ Time Left", "Flash - All", "- x", "123abc", ""] {
        let expected = id.trim_start_matches(|c: char| !c.is_alphabetic() && c != '-');
        assert_eq!(trim_label_start(id), expected, "{id:?}");
    }
    assert_eq!(trim_label_start("🎹 4K Columns"), "K Columns");
}
