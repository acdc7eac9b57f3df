use prettui::color::Color;
use prettui::input::{
    is_terminator, join_lines, multiline_header_pieces, prompt_pieces, secret_key,
    strip_line_ending, wrap_text, wrap_words, InputConfig, SecretKey, SecretStatus,
};
use prettui::output::{output_pieces, OutputConfig, Piece};

fn strings(v: &[&str]) -> Vec<String> {
    v.iter().map(|s| s.to_string()).collect()
}

#[test]
fn wraps_greedily_between_words() {
    assert_eq!(wrap_text("Hello world this is", 11), strings(&["Hello", "world this", "is"]));
    assert_eq!(wrap_text("  a   b \n c", 80), strings(&["a b c"]));
    assert_eq!(wrap_text("", 10), Vec::<String>::new());
    assert_eq!(wrap_text("   ", 10), Vec::<String>::new());
}

#[test]
fn long_word_gets_its_own_line() {
    assert_eq!(wrap_text("verylongword", 5), strings(&["", "verylongword"]));
    assert_eq!(wrap_text("ab verylongword cd", 5), strings(&["ab", "verylongword", "cd"]));
    assert_eq!(wrap_words(&strings(&["x", "y"]), 0), strings(&["", "x", "y"]));
}

#[test]
fn line_endings_are_stripped_once() {
    assert_eq!(strip_line_ending("abc\r\n"), "abc");
    assert_eq!(strip_line_ending("abc\n"), "abc");
    assert_eq!(strip_line_ending("abc"), "abc");
    assert_eq!(strip_line_ending("abc\r"), "abc\r");
    assert_eq!(strip_line_ending("\n"), "");
    assert_eq!(strip_line_ending("a\n\n"), "a\n");
}

#[test]
fn terminators_and_joining() {
    assert!(is_terminator("  .  \n", "."));
    assert!(!is_terminator("..", "."));
    assert_eq!(join_lines(&strings(&["a", "b", "c"])), "a\nb\nc");
    assert_eq!(join_lines(&strings(&["only"])), "only");
    assert_eq!(join_lines(&[]), "");
}

#[test]
fn secret_typing() {
    let mut buf: Vec<char> = Vec::new();
    assert_eq!(secret_key(&mut buf, SecretKey::Char('p', false)), SecretStatus::Reading);
    assert_eq!(secret_key(&mut buf, SecretKey::Char('w', false)), SecretStatus::Reading);
    assert_eq!(secret_key(&mut buf, SecretKey::Backspace), SecretStatus::Reading);
    assert_eq!(secret_key(&mut buf, SecretKey::Char('c', false)), SecretStatus::Reading);
    assert_eq!(secret_key(&mut buf, SecretKey::Other), SecretStatus::Reading);
    assert_eq!(buf, vec!['p', 'c']);
    assert_eq!(secret_key(&mut buf, SecretKey::Enter), SecretStatus::Done);
    assert_eq!(secret_key(&mut buf, SecretKey::Char('c', true)), SecretStatus::Interrupted);
    assert_eq!(buf, vec!['p', 'c']);
    let mut empty: Vec<char> = Vec::new();
    secret_key(&mut empty, SecretKey::Backspace);
    assert!(empty.is_empty());
}

#[test]
fn prompt_pieces_follow_config() {
    let c = InputConfig::default();
    assert_eq!(prompt_pieces(&c), vec![Piece::Styled(">> ".to_string(), Color::White)]);
    let d = InputConfig {
        prefix: "[TEST] ".to_string(),
        prefix_color: Color::Magenta,
        indent_level: 2,
        ..Default::default()
    };
    assert_eq!(
        multiline_header_pieces(&d, "."),
        vec![
            Piece::Plain("  ".to_string()),
            Piece::Styled("[TEST] ".to_string(), Color::Magenta),
            Piece::Styled(">>  (end with '.' on new line)\n".to_string(), Color::White),
        ]
    );
}

#[test]
fn output_config_default() {
    let c = OutputConfig::default();
    assert_eq!(c.prefix, "");
    assert_eq!(c.prefix_color, Color::Green);
    assert_eq!(c.text_color, Color::White);
    assert_eq!(c.log_level, None);
    assert_eq!(c.indent_level, 0);
    assert_eq!(c.max_chars_per_line, 80);
}

#[test]
fn output_lines_are_decorated() {
    let cfg = OutputConfig {
        prefix: "[App] ".to_string(),
        log_level: Some("INFO".to_string()),
        indent_level: 2,
        max_chars_per_line: 11,
        ..Default::default()
    };
    let styled = |s: &str, c: Color| Piece::Styled(s.to_string(), c);
    let plain = |s: &str| Piece::Plain(s.to_string());
    assert_eq!(
        output_pieces(&cfg, "Hello world"),
        vec![
            plain("  "),
            styled("[App] ", Color::Green),
            styled("[INFO] ", Color::Green),
            styled("Hello", Color::White),
            plain("\n"),
            plain("  "),
            styled("[App] ", Color::Green),
            styled("[INFO] ", Color::Green),
            styled("world", Color::White),
            plain("\n"),
        ]
    );
    let bare = OutputConfig::default();
    assert_eq!(
        output_pieces(&bare, "hi there"),
        vec![styled("hi there", Color::White), plain("\n")]
    );
    assert_eq!(output_pieces(&bare, ""), Vec::<Piece>::new());
}

#[test]
fn wrapping_counts_utf8_bytes() {
    assert_eq!(wrap_text("éé é", 6), strings(&["éé", "é"]));
    assert_eq!(wrap_text("ab c", 6), strings(&["ab c"]));
    assert_eq!(wrap_text("a\u{3000}b\u{a0}c", 80), strings(&["a b c"]));
}
