use vstd::prelude::*;
use vstd::string::{StrSliceExecFns, StringExecFns};

use crate::input::InputConfig;
use crate::session::{all_digits, decimal_value, is_decimal_digit, lemma_decimal_value_prefix};
use crate::text::{blank, decimal, lower_of, lowercase, push_blank, push_char, push_decimal, same_text, trim, trim_of};

verus! {

/// Configuration for yes/no questions.
#[derive(Debug, Clone, Copy, PartialEq, Eq, Structural)]
pub struct ConfirmConfig {
    /// Answer taken when the user enters nothing: `Some(true)` shows `[Y/n]`,
    /// `Some(false)` shows `[y/N]`, `None` shows `[y/n]` and asks again.
    pub default: Option<bool>,
    /// Whether `yes` and `no` must be typed in lower case exactly.
    pub case_sensitive: bool,
}

impl Default for ConfirmConfig {
    /// No default answer; case does not matter.
    fn default() -> (r: Self)
        ensures
            r.default is None,
            !r.case_sensitive,
    {
        ConfirmConfig { default: None, case_sensitive: false }
    }
}

/// Configuration for input that must match a regular expression.
#[derive(Debug, Clone)]
pub struct RegexConfig {
    /// Message shown when the input does not match.
    pub error_message: Option<String>,
    /// Attempts allowed before giving up; `None` allows any number.
    pub max_attempts: Option<usize>,
    /// Whether the prompt shows the pattern.
    pub show_pattern: bool,
}

impl Default for RegexConfig {
    /// Default message, three attempts, pattern hidden.
    fn default() -> (r: Self)
        ensures
            r.error_message is None,
            r.max_attempts == Some(3usize),
            !r.show_pattern,
    {
        RegexConfig { error_message: None, max_attempts: Some(3), show_pattern: false }
    }
}

/// Configuration for integer input.
#[derive(Debug, Clone)]
pub struct NumberConfig {
    /// Smallest value accepted.
    pub min: Option<i64>,
    /// Largest value accepted.
    pub max: Option<i64>,
    /// Message shown when the input is not a number in range.
    pub error_message: Option<String>,
    /// Attempts allowed before giving up; `None` allows any number.
    pub max_attempts: Option<usize>,
}

impl Default for NumberConfig {
    /// No bounds, default message, three attempts.
    fn default() -> (r: Self)
        ensures
            r.min is None,
            r.max is None,
            r.error_message is None,
            r.max_attempts == Some(3usize),
    {
        NumberConfig { min: None, max: None, error_message: None, max_attempts: Some(3) }
    }
}



/// A regular expression of the `regex` crate, carried through opaquely.
#[verifier::external_type_specification]
#[verifier::external_body]
pub struct ExRegex(regex::Regex);

/// Whether the compiled pattern `re` matches somewhere in `s`.
pub uninterp spec fn regex_match_of(re: regex::Regex, s: Seq<char>) -> bool;

/// The text that the compiled pattern `re` was written as.
pub uninterp spec fn pattern_text_of(re: regex::Regex) -> Seq<char>;

/// Relies on `regex::Regex::is_match`: whether the pattern matches somewhere
/// in `haystack`, which depends on the regex and the haystack alone.
pub assume_specification[ regex::Regex::is_match ](re: &regex::Regex, haystack: &str) -> (r: bool)
    ensures
        r == regex_match_of(*re, haystack@),
;

/// Relies on `regex::Regex::as_str`: the original text of the pattern.
pub assume_specification[ regex::Regex::as_str ](re: &regex::Regex) -> (r: &str)
    ensures
        r@ == pattern_text_of(*re),
;

/// The answer marker shown after a yes/no question.
pub open spec fn indicator_of(default: Option<bool>) -> Seq<char> {
    match default {
        Some(true) => "[Y/n]"@,
        Some(false) => "[y/N]"@,
        None => "[y/n]"@,
    }
}

/// `y` and `yes` mean yes, `n` and `no` mean no; nothing else is an answer.
pub open spec fn yes_no_of(v: Seq<char>) -> Option<bool> {
    if v == "y"@ || v == "yes"@ {
        Some(true)
    } else if v == "n"@ || v == "no"@ {
        Some(false)
    } else {
        None
    }
}

/// The answer that a trimmed reply gives: the default for an empty reply when
/// there is one, else the reply (in lower case unless case matters) read as
/// yes or no.
pub open spec fn reply_of(input: Seq<char>, cfg: ConfirmConfig) -> Option<bool> {
    if input.len() == 0 && cfg.default is Some {
        cfg.default
    } else if cfg.case_sensitive {
        yes_no_of(input)
    } else {
        yes_no_of(lower_of(input))
    }
}

/// The answer marker shown after a yes/no question.
pub fn confirm_indicator(default: Option<bool>) -> (r: &'static str)
    ensures
        r@ == indicator_of(default),
{
    match default {
        Some(true) => "[Y/n]",
        Some(false) => "[y/N]",
        None => "[y/n]",
    }
}

/// Read `v` as yes or no.
pub fn yes_no(v: &str) -> (r: Option<bool>)
    ensures
        r == yes_no_of(v@),
{
    if same_text(v, "y") || same_text(v, "yes") {
        Some(true)
    } else if same_text(v, "n") || same_text(v, "no") {
        Some(false)
    } else {
        None
    }
}

/// The answer that a trimmed reply gives, if any.
pub fn interpret_reply(input: &str, cfg: &ConfirmConfig) -> (r: Option<bool>)
    ensures
        r == reply_of(input@, *cfg),
{
    if input.unicode_len() == 0 && cfg.default.is_some() {
        return cfg.default;
    }
    if cfg.case_sensitive {
        yes_no(input)
    } else {
        let folded = lowercase(input);
        yes_no(folded.as_str())
    }
}

/// The answer that a line typed in reply gives, if any; `None` means the
/// question is asked again.
pub fn confirm_reply(line: &str, cfg: &ConfirmConfig) -> (r: Option<bool>)
    ensures
        r == reply_of(trim_of(line@), *cfg),
{
    interpret_reply(trim(line), cfg)
}

/// What to do with one attempt at a validated prompt.
#[derive(Debug, PartialEq, Eq)]
pub enum Verdict<T> {
    /// The input is accepted.
    Accept(T),
    /// The input is refused; show this message and ask again.
    Retry(String),
    /// The input is refused and no attempts are left; fail with this message.
    GiveUp(String),
}

/// After `failures` refused attempts, whether one more refusal uses up the
/// attempts allowed.
pub open spec fn exhausted(failures: int, max_attempts: Option<usize>) -> bool {
    match max_attempts {
        Some(m) => failures + 1 >= m,
        None => false,
    }
}

/// The configured message, or `fallback` when none is configured.
pub open spec fn message_or(message: Option<String>, fallback: Seq<char>) -> Seq<char> {
    match message {
        Some(m) => m@,
        None => fallback,
    }
}

/// `r` is the verdict on a refused attempt, after `failures` earlier ones.
pub open spec fn refused<T>(
    r: Verdict<T>,
    failures: int,
    max_attempts: Option<usize>,
    give_up: Seq<char>,
    retry: Seq<char>,
) -> bool {
    if exhausted(failures, max_attempts) {
        r matches Verdict::GiveUp(m) && m@ == give_up
    } else {
        r matches Verdict::Retry(m) && m@ == retry
    }
}

fn message_text(message: &Option<String>, fallback: &str) -> (r: String)
    ensures
        r@ == message_or(*message, fallback@),
{
    match message {
        Some(m) => m.clone(),
        None => String::from_str(fallback),
    }
}

fn refusal<T>(
    failures: usize,
    max_attempts: Option<usize>,
    message: &Option<String>,
    give_up: &str,
    retry: &str,
) -> (r: Verdict<T>)
    ensures
        refused(r, failures as int, max_attempts, message_or(*message, give_up@), message_or(*message, retry@)),
{
    let out = match max_attempts {
        Some(m) => m == 0 || failures >= m - 1,
        None => false,
    };
    if out {
        Verdict::GiveUp(message_text(message, give_up))
    } else {
        Verdict::Retry(message_text(message, retry))
    }
}

/// The verdict on an attempt at a pattern prompt, given whether the pattern
/// matched the trimmed `input`, after `failures` refused attempts.
pub fn regex_verdict(matched: bool, input: &str, failures: usize, cfg: &RegexConfig) -> (r: Verdict<String>)
    ensures
        matched ==> (r matches Verdict::Accept(s) && s@ == input@),
        !matched ==> refused(
            r,
            failures as int,
            cfg.max_attempts,
            message_or(cfg.error_message, "Invalid input"@),
            message_or(cfg.error_message, "Input does not match pattern"@),
        ),
{
    if matched {
        Verdict::Accept(String::from_str(input))
    } else {
        refusal(failures, cfg.max_attempts, &cfg.error_message, "Invalid input", "Input does not match pattern")
    }
}

/// The verdict on a line typed at a pattern prompt, after `failures` refused
/// attempts: the trimmed line when the pattern matches it, a refusal otherwise.
pub fn check_matching(pattern: &regex::Regex, line: &str, failures: usize, cfg: &RegexConfig) -> (r: Verdict<String>)
    ensures
        (r is Accept) == regex_match_of(*pattern, trim_of(line@)),
        r matches Verdict::Accept(s) ==> s@ == trim_of(line@),
        !(r is Accept) ==> refused(
            r,
            failures as int,
            cfg.max_attempts,
            message_or(cfg.error_message, "Invalid input"@),
            message_or(cfg.error_message, "Input does not match pattern"@),
        ),
{
    let input = trim(line);
    let matched = pattern.is_match(input);
    regex_verdict(matched, input, failures, cfg)
}

/// The integer that `s` denotes in the syntax of Rust's integer parsing: an
/// optional `+` or `-`, then one or more decimal digits.
pub open spec fn integer_of(s: Seq<char>) -> Option<int> {
    let negative = s.len() > 0 && s[0] == '-';
    let body = if s.len() > 0 && (s[0] == '-' || s[0] == '+') {
        s.drop_first()
    } else {
        s
    };
    if body.len() > 0 && all_digits(body) {
        Some(if negative { -decimal_value(body) } else { decimal_value(body) as int })
    } else {
        None
    }
}

/// `s` read as an `i64`, if it is an integer in that type's range.
pub open spec fn parse_i64_of(s: Seq<char>) -> Option<i64> {
    match integer_of(s) {
        Some(v) => if i64::MIN <= v <= i64::MAX {
            Some(v as i64)
        } else {
            None
        },
        None => None,
    }
}

/// Read `s` as an `i64` the way Rust's integer parsing does: an optional `+`
/// or `-`, then decimal digits only, with a value in the type's range.
pub fn parse_i64(s: &str) -> (r: Option<i64>)
    ensures
        r == parse_i64_of(s@),
{
    let n = s.unicode_len();
    if n == 0 {
        return None;
    }
    let first = s.get_char(0);
    let negative = first == '-';
    let start: usize = if first == '-' || first == '+' { 1 } else { 0 };
    let ghost body = if start == 1 { s@.drop_first() } else { s@ };
    if start == n {
        return None;
    }
    let limit: u128 = if negative { 9223372036854775808 } else { 9223372036854775807 };
    let mut m: u128 = 0;
    let mut i: usize = start;
    while i < n
        invariant
            n == s@.len(),
            start <= i <= n,
            body.len() == n - start,
            forall|j: int| 0 <= j < body.len() ==> body[j] == s@[j + start],
            all_digits(body.take(i - start)),
            m == decimal_value(body.take(i - start)),
            m <= limit,
            limit <= 9223372036854775808u128,
            negative ==> limit == 9223372036854775808u128,
            !negative ==> limit == 9223372036854775807u128,
            negative == (s@[0] == '-'),
            body == (if s@[0] == '-' || s@[0] == '+' { s@.drop_first() } else { s@ }),
        decreases n - i,
    {
        let c = s.get_char(i);
        let ghost j = i - start;
        assert(body[j] == c);
        if !('0' <= c && c <= '9') {
            assert(!is_decimal_digit(body[j]));
            assert(!all_digits(body));
            return None;
        }
        assert(body.take(j + 1).drop_last() =~= body.take(j));
        assert(body.take(j + 1) =~= body.take(j).push(c));
        m = m * 10 + (c as u32 - '0' as u32) as u128;
        i = i + 1;
        if m > limit {
            proof {
                if all_digits(body) {
                    lemma_decimal_value_prefix(body, j + 1);
                    assert(body.subrange(0, j + 1) =~= body.take(j + 1));
                }
            }
            return None;
        }
    }
    assert(body.take(i - start) =~= body);
    if negative {
        Some((0 - m as i128) as i64)
    } else {
        Some(m as i64)
    }
}

/// Whether `n` lies within the configured bounds.
pub open spec fn in_bounds(n: i64, cfg: NumberConfig) -> bool {
    &&& (cfg.min matches Some(m) ==> n >= m)
    &&& (cfg.max matches Some(m) ==> n <= m)
}

/// The verdict on an attempt at a number prompt, given what the trimmed
/// input parsed to, after `failures` refused attempts.
pub fn number_verdict(parsed: Option<i64>, failures: usize, cfg: &NumberConfig) -> (r: Verdict<i64>)
    ensures
        (parsed matches Some(n) && in_bounds(n, *cfg)) ==> r == Verdict::<i64>::Accept(parsed.unwrap()),
        !(parsed matches Some(n) && in_bounds(n, *cfg)) ==> refused(
            r,
            failures as int,
            cfg.max_attempts,
            message_or(cfg.error_message, "Invalid number input"@),
            message_or(cfg.error_message, "Invalid number"@),
        ),
{
    if let Some(n) = parsed {
        let above = match cfg.min {
            Some(m) => n >= m,
            None => true,
        };
        let below = match cfg.max {
            Some(m) => n <= m,
            None => true,
        };
        if above && below {
            return Verdict::Accept(n);
        }
    }
    refusal(failures, cfg.max_attempts, &cfg.error_message, "Invalid number input", "Invalid number")
}

/// The verdict on a line typed at a number prompt, after `failures` refused
/// attempts: the number when the trimmed line is an integer within bounds, a
/// refusal otherwise.
pub fn check_number(line: &str, failures: usize, cfg: &NumberConfig) -> (r: Verdict<i64>)
    ensures
        (parse_i64_of(trim_of(line@)) matches Some(n) && in_bounds(n, *cfg)) ==> r == Verdict::<i64>::Accept(
            parse_i64_of(trim_of(line@)).unwrap(),
        ),
        !(parse_i64_of(trim_of(line@)) matches Some(n) && in_bounds(n, *cfg)) ==> refused(
            r,
            failures as int,
            cfg.max_attempts,
            message_or(cfg.error_message, "Invalid number input"@),
            message_or(cfg.error_message, "Invalid number"@),
        ),
{
    number_verdict(parse_i64(trim(line)), failures, cfg)
}

/// The decimal numeral of `n`, with a `-` when it is negative.
pub open spec fn signed_decimal(n: int) -> Seq<char> {
    if n < 0 {
        seq!['-'] + decimal((-n) as nat)
    } else {
        decimal(n as nat)
    }
}

/// The hint that tells the accepted range: ` (min-max)`, ` (>= min)`,
/// ` (<= max)`, or nothing.
pub open spec fn range_hint_of(min: Option<i64>, max: Option<i64>) -> Seq<char> {
    match (min, max) {
        (Some(a), Some(b)) => " ("@ + signed_decimal(a as int) + "-"@ + signed_decimal(b as int) + ")"@,
        (Some(a), None) => " (>= "@ + signed_decimal(a as int) + ")"@,
        (None, Some(b)) => " (<= "@ + signed_decimal(b as int) + ")"@,
        (None, None) => Seq::empty(),
    }
}

fn push_signed(s: &mut String, n: i64)
    ensures
        final(s)@ == old(s)@ + signed_decimal(n as int),
{
    if n < 0 {
        push_char(s, '-');
        let magnitude: u64 = if n == i64::MIN { 9223372036854775808u64 } else { (-n) as u64 };
        push_decimal(s, magnitude);
        assert(s@ =~= old(s)@ + signed_decimal(n as int));
    } else {
        push_decimal(s, n as u64);
    }
}

/// The hint that tells a number prompt's accepted range.
pub fn range_hint(cfg: &NumberConfig) -> (r: String)
    ensures
        r@ == range_hint_of(cfg.min, cfg.max),
{
    let mut s = String::new();
    match (cfg.min, cfg.max) {
        (Some(a), Some(b)) => {
            s.append(" (");
            push_signed(&mut s, a);
            s.append("-");
            push_signed(&mut s, b);
            s.append(")");
        },
        (Some(a), None) => {
            s.append(" (>= ");
            push_signed(&mut s, a);
            s.append(")");
        },
        (None, Some(b)) => {
            s.append(" (<= ");
            push_signed(&mut s, b);
            s.append(")");
        },
        (None, None) => {},
    }
    assert(s@ =~= range_hint_of(cfg.min, cfg.max));
    s
}

/// The hint that shows a pattern prompt's pattern, when configured to.
pub fn pattern_hint(pattern: &regex::Regex, cfg: &RegexConfig) -> (r: String)
    ensures
        !cfg.show_pattern ==> r@ == Seq::<char>::empty(),
        cfg.show_pattern ==> r@ == " (pattern: "@ + pattern_text_of(*pattern) + ")"@,
{
    let mut s = String::new();
    if cfg.show_pattern {
        let text = pattern.as_str();
        s.append(" (pattern: ");
        s.append(text);
        s.append(")");
        assert(s@ =~= " (pattern: "@ + text@ + ")"@);
    }
    s
}

/// The question line of a prompt: the trimmed prefix, a space, the message,
/// the hint, and `": "`.
pub fn prompt_line(prefix: &str, message: &str, hint: &str) -> (r: String)
    ensures
        r@ == trim_of(prefix@) + " "@ + message@ + hint@ + ": "@,
{
    let mut s = String::from_str(trim(prefix));
    s.append(" ");
    s.append(message);
    s.append(hint);
    s.append(": ");
    s
}

/// The question line of a yes/no prompt, with its answer marker.
pub fn confirm_prompt(prefix: &str, message: &str, cfg: &ConfirmConfig) -> (r: String)
    ensures
        r@ == trim_of(prefix@) + " "@ + message@ + " "@ + indicator_of(cfg.default) + ": "@,
{
    let mut hint = String::from_str(" ");
    hint.append(confirm_indicator(cfg.default));
    let r = prompt_line(prefix, message, hint.as_str());
    assert(r@ =~= trim_of(prefix@) + " "@ + message@ + " "@ + indicator_of(cfg.default) + ": "@);
    r
}

/// Text as a prompt shows it: the indentation, the prefix, then `text`.
pub fn styled_text(text: &str, cfg: &InputConfig) -> (r: String)
    ensures
        r@ == blank(cfg.indent_level as nat) + cfg.prefix@ + text@,
{
    let mut s = String::new();
    push_blank(&mut s, cfg.indent_level);
    s.append(cfg.prefix.as_str());
    s.append(text);
    s
}

/// An error line: `Error: ` and the message.
pub fn error_text(message: &str) -> (r: String)
    ensures
        r@ == "Error: "@ + message@,
{
    let mut s = String::from_str("Error: ");
    s.append(message);
    s
}

} // verus!
