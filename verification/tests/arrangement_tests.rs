use bitsong::arrangement::{display_to_delete, find_display, DisplayRef, PatternSelection};

fn displays() -> Vec<DisplayRef> {
    vec![
        DisplayRef { pattern_id: 1, start_time: 0 },
        DisplayRef { pattern_id: 2, start_time: 16 },
        DisplayRef { pattern_id: 1, start_time: 32 },
        DisplayRef { pattern_id: 2, start_time: 16 },
    ]
}

#[test]
fn find_display_returns_first_match() {
    let d = displays();
    assert_eq!(find_display(&d, 2, 16), 1);
    assert_eq!(find_display(&d, 1, 32), 2);
    assert_eq!(find_display(&d, 1, 0), 0);
}

#[test]
fn find_display_without_match_returns_len() {
    let d = displays();
    assert_eq!(find_display(&d, 3, 0), 4);
    assert_eq!(find_display(&d, 1, 16), 4);
    assert_eq!(find_display(&Vec::new(), 1, 0), 0);
}

#[test]
fn display_to_delete_cases() {
    let d = displays();
    assert_eq!(display_to_delete(&d, 2, 16), Some(1));
    assert_eq!(display_to_delete(&d, 9, 9), None);
    assert_eq!(display_to_delete(&Vec::new(), 0, 0), None);
}

#[test]
fn pattern_selection() {
    let mut s = PatternSelection::new();
    assert_eq!(s.active(), None);
    assert!(PatternSelection::needs_lookup(5));
    assert!(!PatternSelection::needs_lookup(0));
    s.set_active_pattern(5, Some(2));
    assert_eq!(s.active(), Some(2));
    s.set_active_pattern(0, Some(7));
    assert_eq!(s.active(), None);
    s.set_active_pattern(9, None);
    assert_eq!(s.active(), None);
}
