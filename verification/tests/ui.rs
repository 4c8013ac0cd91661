use konfctl::ui::pager::{Action, Pager};
use konfctl::ui::{calc_max_scroll, max_visible_items_for_widths, rows_for, truncate, Key};

#[test]
fn truncate_ascii_within_limit() {
    assert_eq!(truncate("hello", 10), "hello");
}

#[test]
fn truncate_ascii_at_limit() {
    assert_eq!(truncate("hello", 5), "hello");
}

#[test]
fn truncate_ascii_over_limit() {
    assert_eq!(truncate("hello world", 5), "hell…");
}

#[test]
fn truncate_multibyte_no_panic() {
    assert_eq!(truncate("Andrés Valero", 5), "Andr…");
}

#[test]
fn truncate_multibyte_within_limit() {
    assert_eq!(truncate("Andrés", 10), "Andrés");
}

#[test]
fn truncate_multibyte_at_boundary() {
    assert_eq!(truncate("Andrés", 6), "Andrés");
}

#[test]
fn truncate_multibyte_just_over() {
    assert_eq!(truncate("Andrés", 5), "Andr…");
}

#[test]
fn truncate_emoji() {
    assert_eq!(truncate("🇳🇴 Norway", 3), "🇳🇴…");
}

#[test]
fn truncate_empty() {
    assert_eq!(truncate("", 5), "");
}

#[test]
fn truncate_zero_max() {
    assert_eq!(truncate("hello", 0), "…");
}

#[test]
fn truncate_max_one() {
    assert_eq!(truncate("hello", 1), "…");
}

#[test]
fn truncate_norwegian_chars() {
    assert_eq!(truncate("Friheten i Koden: Ære", 15), "Friheten i Kod…");
}

#[test]
fn vis_row_count_empty() {
    assert_eq!(konfctl::ui::vis_row_count("", 80), 1);
}

#[test]
fn vis_row_count_fits() {
    assert_eq!(konfctl::ui::vis_row_count("hello", 80), 1);
}

#[test]
fn vis_row_count_wraps() {
    let long = "a".repeat(200);
    assert_eq!(konfctl::ui::vis_row_count(&long, 80), 3);
}

#[test]
fn vis_row_count_zero_width_term() {
    assert_eq!(konfctl::ui::vis_row_count("hello", 0), 1);
}

#[test]
fn rows_for_exact_multiple() {
    assert_eq!(rows_for(160, 80), 2);
    assert_eq!(rows_for(161, 80), 3);
    assert_eq!(rows_for(0, 80), 1);
}

#[test]
fn calc_max_scroll_all_fits() {
    let vis = vec![1, 1, 1];
    assert_eq!(calc_max_scroll(&vis, 10), 0);
}

#[test]
fn calc_max_scroll_needs_scroll() {
    let vis = vec![1, 1, 1, 1, 1];
    assert_eq!(calc_max_scroll(&vis, 3), 2);
}

#[test]
fn calc_max_scroll_wrapping_lines() {
    let vis = vec![3, 2, 1]; // 6 visual rows total
    assert_eq!(calc_max_scroll(&vis, 4), 1); // can show lines 1+2 (3 rows) but not 0+1+2 (6)
}

#[test]
fn max_visible_items_counts_wrapped_rows() {
    // Each item takes (width + 4) / 36 rows on a 36-column terminal.
    let widths = vec![10, 60, 10, 10];
    // 24 rows minus 4 of chrome: 1 + 2 + 1 + 1 rows fit.
    assert_eq!(max_visible_items_for_widths(&widths, 4, 36, 24), 4);
    // 7 rows minus 4 leaves 3: items of 1 and 2 rows.
    assert_eq!(max_visible_items_for_widths(&widths, 4, 36, 7), 2);
    // Nothing fits: still one.
    assert_eq!(max_visible_items_for_widths(&widths, 4, 36, 2), 1);
}

#[test]
fn pager_layout_and_scrolling() {
    let content = "one\ntwo\nthree\nfour\nfive\n";
    // 8 rows, footer of one row: viewport = 8 - 4 = 4 rows.
    let mut p = Pager::new(content, "q quit", 8, 80);
    assert_eq!(p.line_count(), 5);
    assert!(p.is_scrollable());
    assert_eq!(p.visible_range(), (0, 4));
    assert!(matches!(p.handle_key(Key::ArrowDown), Action::Redraw));
    assert_eq!(p.scroll_offset(), 1);
    assert_eq!(p.visible_range(), (1, 5));
    // Already at the last useful offset.
    p.handle_key(Key::Char('j'));
    assert_eq!(p.scroll_offset(), 1);
    p.handle_key(Key::ArrowUp);
    assert_eq!(p.scroll_offset(), 0);
    match p.handle_key(Key::Char('q')) {
        Action::Custom(k) => assert_eq!(k, Key::Char('q')),
        Action::Redraw => panic!("q is not a scroll key"),
    }
}

#[test]
fn pager_half_page_moves() {
    let content = (0..20).map(|i| format!("line {i}")).collect::<Vec<_>>().join("\n");
    // viewport = 10 - 4 = 6 rows; half page = 3 lines.
    let mut p = Pager::new(&content, "hint", 10, 80);
    p.handle_key(Key::PageDown);
    assert_eq!(p.scroll_offset(), 3);
    p.handle_key(Key::Char('\u{4}'));
    assert_eq!(p.scroll_offset(), 6);
    p.handle_key(Key::PageUp);
    assert_eq!(p.scroll_offset(), 3);
}

#[test]
fn pager_fits_without_scrolling() {
    let p = Pager::new("a\r\nb", "hint", 24, 80);
    assert_eq!(p.line_count(), 2);
    assert_eq!(p.line(0), "a");
    assert!(!p.is_scrollable());
}
