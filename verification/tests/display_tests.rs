use cliban_tui::display::{bar_parts, card_lines, marquee_slice, priority_letter, truncate, visible_window, BAR_WIDTH};
use cliban_tui::model::Card;
use cliban_tui::rows::fuzzy_indices;

fn card(key: &str, prio: &str) -> Card {
    Card {
        id: 0,
        key: key.into(),
        project: "CLI".into(),
        title: "Hello".into(),
        status: "backlog".into(),
        priority: prio.into(),
        position: 1,
        milestone_id: None,
        milestone: None,
        labels: Vec::new(),
    }
}

#[test]
fn card_key_line_shows_priority_letter() {
    let (k, t) = card_lines(&card("CLI-8", "high"));
    assert_eq!(k, "CLI-8 (H)");
    assert_eq!(t, "  Hello");
}

#[test]
fn bar_is_empty_at_zero_and_full_at_hundred() {
    assert_eq!(bar_parts(0, BAR_WIDTH).1, "░".repeat(BAR_WIDTH));
    assert_eq!(bar_parts(100, BAR_WIDTH).0, "█".repeat(BAR_WIDTH));
    assert!(bar_parts(1, BAR_WIDTH).0.starts_with('█'));
}

#[test]
fn truncate_counts_characters_not_bytes() {
    assert_eq!(truncate("abc", 5), "abc");
    assert_eq!(truncate("abcdef", 4), "abc…");
    assert_eq!(truncate("ééééé", 3), "éé…");
}

#[test]
fn fuzzy_indices_empty_query_matches_all() {
    let items = vec!["Alpha".to_string(), "Beta".to_string(), "Gamma".to_string()];
    assert_eq!(fuzzy_indices(&items, ""), vec![0, 1, 2]);
}

#[test]
fn fuzzy_indices_substring_case_insensitive() {
    let items = vec!["Alpha".to_string(), "Beta".to_string(), "Gamma".to_string()];
    assert_eq!(fuzzy_indices(&items, "ALP"), vec![0]);
    assert_eq!(fuzzy_indices(&items, "ma"), vec![2]);
    assert_eq!(fuzzy_indices(&items, "a"), vec![0, 1, 2]);
    assert!(fuzzy_indices(&items, "zz").is_empty());
}

#[test]
fn priority_letters_cover_every_priority() {
    assert_eq!(priority_letter("low"), "(L)");
    assert_eq!(priority_letter("medium"), "(M)");
    assert_eq!(priority_letter("urgent"), "(U)");
    assert_eq!(priority_letter("whatever"), "( )");
}

#[test]
fn truncate_to_zero_or_one_is_just_the_ellipsis() {
    assert_eq!(truncate("abc", 1), "…");
    assert_eq!(truncate("abc", 0), "…");
    assert_eq!(truncate("", 0), "");
}

#[test]
fn bar_rounds_partial_cells_up_and_fills_the_width() {
    let (f, e) = bar_parts(55, 10);
    assert_eq!(f, "██████");
    assert_eq!(e, "░░░░");
    let (f, e) = bar_parts(150, 4);
    assert_eq!(f, "████");
    assert_eq!(e, "");
}

#[test]
fn marquee_scrolls_every_two_hundred_ms_and_wraps_through_the_separator() {
    assert_eq!(marquee_slice("short", 10, 12345), "short");
    assert_eq!(marquee_slice("anything", 0, 0), "");
    assert_eq!(marquee_slice("abcdef", 3, 0), "abc");
    assert_eq!(marquee_slice("abcdef", 3, 199), "abc");
    assert_eq!(marquee_slice("abcdef", 3, 200), "bcd");
    assert_eq!(marquee_slice("abcdef", 3, 5 * 200), "f  ");
    assert_eq!(marquee_slice("abcdef", 4, 8 * 200), " •  ");
    assert_eq!(marquee_slice("abcdef", 3, 13 * 200), "abc");
}

#[test]
fn list_window_keeps_the_cursor_in_view() {
    assert_eq!(visible_window(0, 10, 4), (0, 0, 4));
    assert_eq!(visible_window(3, 10, 4), (3, 0, 4));
    assert_eq!(visible_window(5, 10, 4), (5, 2, 6));
    assert_eq!(visible_window(50, 10, 4), (9, 6, 10));
    assert_eq!(visible_window(2, 0, 4), (0, 0, 0));
}
