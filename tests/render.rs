use prettui::color::Color;
use prettui::layout::{grid_fits, plan_display_space, required_viewport_height, start_row_after_scroll, Space};
use prettui::list::ListConfig;
use prettui::render::{cell_position, cleanup, render_page, DrawOp};

fn p(s: &str) -> DrawOp {
    DrawOp::Print(s.to_string())
}

fn small() -> ListConfig {
    ListConfig::default().items_per_row(2).rows_per_page(1).cell_width(6)
}

fn items(v: &[&str]) -> Vec<String> {
    v.iter().map(|s| s.to_string()).collect()
}

#[test]
fn first_page_is_drawn_with_highlight() {
    let ops = render_page(&items(&["a", "bb", "ccc"]), 0, &[], &small(), 0, 0);
    assert_eq!(
        ops,
        vec![
            DrawOp::MoveTo(0, 0),
            p("      "),
            DrawOp::MoveTo(6, 0),
            p("      "),
            DrawOp::MoveTo(0, 0),
            DrawOp::SetFg(Color::Yellow),
            p(" 1. a "),
            DrawOp::MoveTo(6, 0),
            DrawOp::SetFg(Color::White),
            p(" 2. bb"),
            DrawOp::MoveTo(0, 1),
            p("      "),
            DrawOp::MoveTo(0, 1),
            DrawOp::ResetColor,
            DrawOp::MoveTo(0, 1),
        ]
    );
}

#[test]
fn last_partial_page_truncates_text_and_echoes_digits() {
    let ops = render_page(&items(&["a", "bb", "ccc"]), 2, &['1', '2'], &small(), 3, 4);
    assert_eq!(
        ops,
        vec![
            DrawOp::MoveTo(3, 4),
            p("      "),
            DrawOp::MoveTo(9, 4),
            p("      "),
            DrawOp::MoveTo(3, 4),
            DrawOp::SetFg(Color::Yellow),
            p(" 3. cc"),
            DrawOp::MoveTo(3, 5),
            p("      "),
            DrawOp::MoveTo(3, 5),
            DrawOp::SetFg(Color::White),
            p("Input: 12"),
            DrawOp::ResetColor,
            DrawOp::MoveTo(3, 5),
        ]
    );
}

#[test]
fn two_digit_numbers_fill_the_field() {
    let names: Vec<String> = (1..=12).map(|i| format!("Item {}", i)).collect();
    let config = ListConfig::default().items_per_row(1).rows_per_page(10).cell_width(12);
    let ops = render_page(&names, 11, &[], &config, 0, 0);
    assert!(ops.contains(&p("11. Item 11 ")));
    assert!(ops.contains(&p("12. Item 12 ")));
    assert!(!ops.contains(&p(" 1. Item 1   ")));
    assert_eq!(ops.len(), 10 * 2 + 2 * 3 + 3 + 2);
}

#[test]
fn cleanup_blanks_grid_and_input_line() {
    let ops = cleanup(&small(), 1, 2);
    assert_eq!(
        ops,
        vec![
            DrawOp::MoveTo(1, 2),
            p("      "),
            DrawOp::MoveTo(7, 2),
            p("      "),
            DrawOp::MoveTo(1, 3),
            p("      "),
            DrawOp::MoveTo(1, 3),
        ]
    );
}

#[test]
fn cell_positions_follow_the_grid() {
    let config = ListConfig::default();
    assert_eq!(cell_position(&config, 2, 3, 0), (2, 3));
    assert_eq!(cell_position(&config, 2, 3, 4), (22, 4));
    assert_eq!(cell_position(&config, 2, 3, 14), (42, 7));
}

#[test]
fn display_space_decisions() {
    let config = ListConfig::default();
    assert_eq!(required_viewport_height(&config), 6);
    assert_eq!(plan_display_space(10, 40, &config), Space::Fits(10));
    assert_eq!(plan_display_space(34, 40, &config), Space::Fits(34));
    assert_eq!(plan_display_space(35, 40, &config), Space::Scroll(1));
    assert_eq!(plan_display_space(50, 40, &config), Space::Scroll(6));
    assert_eq!(start_row_after_scroll(39, &config), 33);
    assert_eq!(start_row_after_scroll(3, &config), 0);
}

#[test]
fn grid_fit_checks() {
    let config = ListConfig::default();
    assert!(grid_fits(&config, 0, 0));
    assert!(grid_fits(&config, 65535 - 40, 65535 - 5));
    assert!(!grid_fits(&config, 65535 - 39, 0));
    assert!(!grid_fits(&config, 0, 65535 - 4));
}
