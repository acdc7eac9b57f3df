use prettui::color::Color;
use prettui::list::ListConfig;
use prettui::session::{Key, Outcome, Session};

fn session(total: usize, per_row: usize, rows: usize) -> Session {
    let config = ListConfig::default().items_per_row(per_row).rows_per_page(rows);
    Session::new(total, config).expect("a non-empty list")
}

fn type_digits(s: &mut Session, text: &str) {
    for c in text.chars() {
        assert_eq!(s.handle_key(Key::Char(c)), Outcome::Active);
    }
}

#[test]
fn hundred_items_one_per_row_scenario() {
    let mut s = session(100, 1, 10);
    assert_eq!(s.selected, 0);
    assert_eq!(prettui::layout::calculate_page_start(s.selected, 10), 0);
    for _ in 0..9 {
        assert_eq!(s.handle_key(Key::Down), Outcome::Active);
    }
    assert_eq!(s.selected, 9);
    assert_eq!(prettui::layout::calculate_page_start(s.selected, 10), 0);
    s.handle_key(Key::Down);
    assert_eq!(s.selected, 10);
    assert_eq!(prettui::layout::calculate_page_start(s.selected, 10), 10);

    type_digits(&mut s, "37");
    assert_eq!(s.handle_key(Key::Enter), Outcome::Confirmed(36));
}

#[test]
fn typed_number_out_of_range_is_ignored() {
    let mut s = session(100, 1, 10);
    s.handle_key(Key::Down);
    type_digits(&mut s, "150");
    assert_eq!(s.handle_key(Key::Enter), Outcome::Active);
    assert_eq!(s.selected, 1);
    assert_eq!(s.digits, vec!['1', '5', '0']);
}

#[test]
fn five_items_page_down_scenario() {
    let mut s = session(5, 3, 1);
    s.handle_key(Key::PageDown);
    assert_eq!(s.selected, 3);
    s.handle_key(Key::PageDown);
    assert_eq!(s.selected, 3);
    s.handle_key(Key::PageUp);
    assert_eq!(s.selected, 0);
}

#[test]
fn moves_stop_at_the_edges() {
    let mut s = session(5, 3, 1);
    type_digits(&mut s, "4");
    s.handle_key(Key::Left);
    s.handle_key(Key::Up);
    s.handle_key(Key::PageUp);
    assert_eq!(s.selected, 0);
    assert_eq!(s.digits, vec!['4']);
    s.handle_key(Key::Right);
    assert_eq!(s.selected, 1);
    assert!(s.digits.is_empty());
    s.handle_key(Key::Down);
    assert_eq!(s.selected, 4);
    s.handle_key(Key::Down);
    s.handle_key(Key::Right);
    assert_eq!(s.selected, 4);
    s.handle_key(Key::Up);
    assert_eq!(s.selected, 1);
}

#[test]
fn digits_only_and_backspace() {
    let mut s = session(20, 3, 5);
    type_digits(&mut s, "1a2 ");
    assert_eq!(s.digits, vec!['1', '2']);
    s.handle_key(Key::Backspace);
    assert_eq!(s.digits, vec!['1']);
    s.handle_key(Key::Backspace);
    s.handle_key(Key::Backspace);
    assert!(s.digits.is_empty());
    assert_eq!(s.selected, 0);
    s.handle_key(Key::Other);
    assert_eq!(s.selected, 0);
}

#[test]
fn enter_zero_is_ignored() {
    let mut s = session(20, 3, 5);
    type_digits(&mut s, "0");
    assert_eq!(s.handle_key(Key::Enter), Outcome::Active);
    type_digits(&mut s, "7");
    assert_eq!(s.digits, vec!['0', '7']);
    assert_eq!(s.handle_key(Key::Enter), Outcome::Confirmed(6));
}

#[test]
fn enter_picks_last_item_by_number() {
    let mut s = session(20, 3, 5);
    type_digits(&mut s, "20");
    assert_eq!(s.handle_key(Key::Enter), Outcome::Confirmed(19));
    let mut t = session(20, 3, 5);
    type_digits(&mut t, "21");
    assert_eq!(t.handle_key(Key::Enter), Outcome::Active);
}

#[test]
fn huge_typed_number_is_ignored() {
    let mut s = session(20, 3, 5);
    type_digits(&mut s, "99999999999999999999999999999999999999999");
    assert_eq!(s.handle_key(Key::Enter), Outcome::Active);
}

#[test]
fn enter_without_digits_picks_selected() {
    let mut s = session(20, 3, 5);
    s.handle_key(Key::Right);
    s.handle_key(Key::Down);
    assert_eq!(s.handle_key(Key::Enter), Outcome::Confirmed(4));
}

#[test]
fn escape_cancels() {
    let mut s = session(20, 3, 5);
    type_digits(&mut s, "3");
    assert_eq!(s.handle_key(Key::Esc), Outcome::Cancelled);
}

#[test]
fn no_items_no_session() {
    assert!(Session::new(0, ListConfig::default()).is_none());
}

#[test]
fn list_config_defaults_and_builders() {
    let c = ListConfig::default();
    assert_eq!(c.items_per_row, 3);
    assert_eq!(c.rows_per_page, 5);
    assert_eq!(c.cell_width, 20);
    assert_eq!(c.normal_fg, Color::White);
    assert_eq!(c.highlight_fg, Color::Yellow);
    let d = c
        .items_per_row(1)
        .rows_per_page(10)
        .cell_width(30)
        .normal_fg(Color::DarkGrey)
        .highlight_fg(Color::Green);
    assert_eq!(d.items_per_row, 1);
    assert_eq!(d.rows_per_page, 10);
    assert_eq!(d.cell_width, 30);
    assert_eq!(d.normal_fg, Color::DarkGrey);
    assert_eq!(d.highlight_fg, Color::Green);
    assert_eq!(d.page_capacity(), 10);
    assert!(d.is_valid());
    assert!(!c.items_per_row(0).is_valid());
    assert!(!c.rows_per_page(0).is_valid());
    assert!(!c.cell_width(0).is_valid());
    assert!(!c.items_per_row(usize::MAX).rows_per_page(2).is_valid());
    assert!(!c.rows_per_page(65535).is_valid());
}

#[test]
fn page_start_is_a_multiple_holding_selected() {
    for cap in 1..12usize {
        for sel in 0..50usize {
            let p = prettui::layout::calculate_page_start(sel, cap);
            assert_eq!(p % cap, 0);
            assert!(p <= sel && sel < p + cap);
        }
    }
    assert_eq!(prettui::layout::calculate_page_start(37, 15), 30);
}
