use prettui::color::Color;
use prettui::input::InputConfig;
use prettui::prompt::{
    check_matching, check_number, confirm_indicator, confirm_prompt, confirm_reply, error_text,
    interpret_reply, number_verdict, parse_i64, pattern_hint, prompt_line, range_hint, regex_verdict,
    styled_text, yes_no, ConfirmConfig, NumberConfig, RegexConfig, Verdict,
};
use regex::Regex;

fn retry(s: &str) -> Verdict<i64> {
    Verdict::Retry(s.to_string())
}

#[test]
fn confirm_config_default() {
    let c = ConfirmConfig::default();
    assert_eq!(c.default, None);
    assert!(!c.case_sensitive);
}

#[test]
fn regex_and_number_config_defaults() {
    let r = RegexConfig::default();
    assert_eq!(r.error_message, None);
    assert_eq!(r.max_attempts, Some(3));
    assert!(!r.show_pattern);
    let n = NumberConfig::default();
    assert_eq!(n.min, None);
    assert_eq!(n.max, None);
    assert_eq!(n.error_message, None);
    assert_eq!(n.max_attempts, Some(3));
}

#[test]
fn indicators() {
    assert_eq!(confirm_indicator(Some(true)), "[Y/n]");
    assert_eq!(confirm_indicator(Some(false)), "[y/N]");
    assert_eq!(confirm_indicator(None), "[y/n]");
}

#[test]
fn yes_and_no_words() {
    assert_eq!(yes_no("y"), Some(true));
    assert_eq!(yes_no("yes"), Some(true));
    assert_eq!(yes_no("n"), Some(false));
    assert_eq!(yes_no("no"), Some(false));
    assert_eq!(yes_no("ye"), None);
    assert_eq!(yes_no(""), None);
    assert_eq!(yes_no("YES"), None);
}

#[test]
fn replies_fold_case_and_take_default() {
    let plain = ConfirmConfig::default();
    assert_eq!(confirm_reply("  YES \n", &plain), Some(true));
    assert_eq!(confirm_reply("No\n", &plain), Some(false));
    assert_eq!(confirm_reply("\n", &plain), None);
    assert_eq!(confirm_reply("maybe\n", &plain), None);
    let yes_default = ConfirmConfig { default: Some(true), case_sensitive: false };
    assert_eq!(confirm_reply("   \n", &yes_default), Some(true));
    assert_eq!(confirm_reply("n", &yes_default), Some(false));
    let strict = ConfirmConfig { default: Some(false), case_sensitive: true };
    assert_eq!(interpret_reply("", &strict), Some(false));
    assert_eq!(interpret_reply("Y", &strict), None);
    assert_eq!(interpret_reply("y", &strict), Some(true));
}

#[test]
fn numbers_in_and_out_of_range() {
    let cfg = NumberConfig { min: Some(1), max: Some(10), ..Default::default() };
    assert_eq!(check_number(" 7\n", 0, &cfg), Verdict::Accept(7));
    assert_eq!(check_number("10", 0, &cfg), Verdict::Accept(10));
    assert_eq!(check_number("42", 0, &cfg), retry("Invalid number"));
    assert_eq!(check_number("0", 1, &cfg), retry("Invalid number"));
    assert_eq!(check_number("42", 2, &cfg), Verdict::GiveUp("Invalid number input".to_string()));
}

#[test]
fn number_syntax() {
    let cfg = NumberConfig::default();
    assert_eq!(check_number(" -5 ", 0, &cfg), Verdict::Accept(-5));
    assert_eq!(check_number("+3", 0, &cfg), Verdict::Accept(3));
    assert_eq!(check_number("-9223372036854775808", 0, &cfg), Verdict::Accept(i64::MIN));
    assert_eq!(check_number("9223372036854775808", 0, &cfg), retry("Invalid number"));
    assert_eq!(check_number("abc", 0, &cfg), retry("Invalid number"));
    assert_eq!(check_number("1 2", 0, &cfg), retry("Invalid number"));
    assert_eq!(check_number("-", 0, &cfg), retry("Invalid number"));
    assert_eq!(check_number("", 0, &cfg), retry("Invalid number"));
}

#[test]
fn attempt_limits_and_messages() {
    let unlimited = NumberConfig { max_attempts: None, ..Default::default() };
    assert_eq!(number_verdict(None, usize::MAX - 1, &unlimited), retry("Invalid number"));
    let none_allowed = NumberConfig { max_attempts: Some(0), ..Default::default() };
    assert_eq!(
        number_verdict(None, 0, &none_allowed),
        Verdict::GiveUp("Invalid number input".to_string())
    );
    let custom = NumberConfig {
        max: Some(5),
        error_message: Some("Must be 1-5".to_string()),
        ..Default::default()
    };
    assert_eq!(number_verdict(Some(6), 0, &custom), retry("Must be 1-5"));
    assert_eq!(number_verdict(Some(6), 2, &custom), Verdict::GiveUp("Must be 1-5".to_string()));
    assert_eq!(number_verdict(Some(-100), 0, &custom), Verdict::Accept(-100));
}

#[test]
fn range_hints() {
    let both = NumberConfig { min: Some(1), max: Some(10), ..Default::default() };
    assert_eq!(range_hint(&both), " (1-10)");
    let low = NumberConfig { min: Some(-5), ..Default::default() };
    assert_eq!(range_hint(&low), " (>= -5)");
    let high = NumberConfig { max: Some(i64::MIN), ..Default::default() };
    assert_eq!(range_hint(&high), " (<= -9223372036854775808)");
    assert_eq!(range_hint(&NumberConfig::default()), "");
}

#[test]
fn pattern_prompts() {
    let re = Regex::new(r"^\d+$").unwrap();
    let cfg = RegexConfig::default();
    assert_eq!(check_matching(&re, "  123 \n", 0, &cfg), Verdict::Accept("123".to_string()));
    assert_eq!(
        check_matching(&re, "abc", 0, &cfg),
        Verdict::Retry("Input does not match pattern".to_string())
    );
    assert_eq!(check_matching(&re, "abc", 2, &cfg), Verdict::GiveUp("Invalid input".to_string()));
    let custom = RegexConfig { error_message: Some("bad".to_string()), show_pattern: true, ..cfg };
    assert_eq!(check_matching(&re, "x", 0, &custom), Verdict::Retry("bad".to_string()));
    assert_eq!(pattern_hint(&re, &custom), r" (pattern: ^\d+$)");
    assert_eq!(pattern_hint(&re, &RegexConfig::default()), "");
    assert_eq!(regex_verdict(true, "ok", 9, &RegexConfig::default()), Verdict::Accept("ok".to_string()));
}

#[test]
fn prompt_texts() {
    assert_eq!(prompt_line("  [X] ", "Name", ""), "[X] Name: ");
    assert_eq!(prompt_line("", "Count", " (1-10)"), " Count (1-10): ");
    let cfg = ConfirmConfig { default: Some(true), case_sensitive: false };
    assert_eq!(confirm_prompt("", "Continue?", &cfg), " Continue? [Y/n]: ");
    let ic = InputConfig { indent_level: 2, prefix: "> ".to_string(), ..Default::default() };
    assert_eq!(styled_text("hi", &ic), "  > hi");
    assert_eq!(error_text("Invalid number"), "Error: Invalid number");
}

#[test]
fn input_config_default() {
    let c = InputConfig::default();
    assert_eq!(c.prefix, "");
    assert_eq!(c.prompt, ">> ");
    assert_eq!(c.prefix_color, Color::Blue);
    assert_eq!(c.prompt_color, Color::White);
    assert_eq!(c.input_text_color, Color::White);
    assert_eq!(c.max_chars_per_line, 80);
    assert_eq!(c.indent_level, 0);
}

#[test]
fn parsing_i64_directly() {
    assert_eq!(parse_i64("0"), Some(0));
    assert_eq!(parse_i64("-0"), Some(0));
    assert_eq!(parse_i64("007"), Some(7));
    assert_eq!(parse_i64("9223372036854775807"), Some(i64::MAX));
    assert_eq!(parse_i64("-9223372036854775809"), None);
    assert_eq!(parse_i64("+"), None);
    assert_eq!(parse_i64("+-1"), None);
    assert_eq!(parse_i64(" 1"), None);
    assert_eq!(parse_i64("12a"), None);
    assert_eq!(parse_i64("99999999999999999999999x"), None);
}

#[test]
fn unicode_whitespace_is_trimmed() {
    let plain = ConfirmConfig::default();
    assert_eq!(confirm_reply("\u{3000}yes\u{a0}\r\n", &plain), Some(true));
    assert_eq!(check_number("\u{2003}12\t", 0, &NumberConfig::default()), Verdict::Accept(12));
}
