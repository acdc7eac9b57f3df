use vstd::prelude::*;
use vstd::string::{StrSliceExecFns, StringExecFns};
use vstd::utf8::encode_utf8;

use crate::output::{texts, Piece, Text};
use crate::text::{blank, blank_string, is_white_space, push_char, same_text, trim, trim_of};

use crate::color::Color;

verus! {

/// Configuration for reading input from the user.
#[derive(Debug, Clone)]
pub struct InputConfig {
    /// Text to display before the prompt (a label).
    pub prefix: String,
    /// The prompt shown before reading input.
    pub prompt: String,
    /// Colour of the prefix.
    pub prefix_color: Color,
    /// Colour of the prompt.
    pub prompt_color: Color,
    /// Colour of the user's input.
    pub input_text_color: Color,
    /// Maximum number of characters per line before wrapping.
    pub max_chars_per_line: usize,
    /// Number of spaces to indent before printing the prompt.
    pub indent_level: usize,
}

impl Default for InputConfig {
    /// No prefix, the prompt `">> "` in white, blue prefix colour, white input,
    /// 80 characters per line and no indentation.
    fn default() -> (r: Self)
        ensures
            r.prefix@ == Seq::<char>::empty(),
            r.prompt@ == ">> "@,
            r.prefix_color == Color::Blue,
            r.prompt_color == Color::White,
            r.input_text_color == Color::White,
            r.max_chars_per_line == 80,
            r.indent_level == 0,
    {
        InputConfig {
            prefix: String::new(),
            prompt: String::from_str(">> "),
            prefix_color: Color::Blue,
            prompt_color: Color::White,
            input_text_color: Color::White,
            max_chars_per_line: 80,
            indent_level: 0,
        }
    }
}

/// The words of `s` after the word `current` that is being read: each maximal
/// run of characters that are not whitespace, in order.
pub open spec fn words_from(s: Seq<char>, current: Seq<char>) -> Seq<Seq<char>>
    decreases s.len(),
{
    let done = if current.len() > 0 {
        seq![current]
    } else {
        Seq::empty()
    };
    if s.len() == 0 {
        done
    } else if is_white_space(s[0]) {
        done + words_from(s.drop_first(), Seq::empty())
    } else {
        words_from(s.drop_first(), current.push(s[0]))
    }
}

/// The words of `s`: its maximal non-empty runs of characters that are not
/// whitespace, in order.
pub open spec fn words_of(s: Seq<char>) -> Seq<Seq<char>> {
    words_from(s, Seq::empty())
}

/// Relies on `str::split_whitespace`: the words of `text`, in order, where
/// whitespace is the Unicode `White_Space` property.
#[verifier::external_body]
fn split_words(text: &str) -> (r: Vec<String>)
    ensures
        r@.map_values(|w: String| w@) == words_of(text@),
{
    text.split_whitespace().map(|w| w.to_string()).collect()
}

/// The length of `s` in bytes of UTF-8.
pub open spec fn byte_len(s: Seq<char>) -> nat {
    encode_utf8(s).len()
}

/// Lines finished so far, the line being filled, and the bytes it uses (each
/// word counts its UTF-8 length plus one for the space after it), after the
/// first `n` words have been placed greedily on lines of at most `max_width`.
pub open spec fn wrap_state(words: Seq<Seq<char>>, max_width: nat, n: nat) -> (Seq<Seq<char>>, Seq<char>, nat)
    decreases n,
{
    if n == 0 || n > words.len() {
        (Seq::empty(), Seq::empty(), 0)
    } else {
        let prev = wrap_state(words, max_width, (n - 1) as nat);
        let w = words[n - 1];
        if prev.2 + byte_len(w) + 1 > max_width {
            (prev.0.push(prev.1), w, byte_len(w) + 1)
        } else if prev.2 == 0 {
            (prev.0, w, byte_len(w) + 1)
        } else {
            (prev.0, prev.1 + seq![' '] + w, prev.2 + byte_len(w) + 1)
        }
    }
}

/// `words` packed greedily on lines, joined by single spaces. A word that
/// does not fit after the current line's words starts a new line (the current
/// line is closed even when it is still empty).
pub open spec fn wrap_lines(words: Seq<Seq<char>>, max_width: nat) -> Seq<Seq<char>> {
    let last = wrap_state(words, max_width, words.len());
    if last.2 > 0 {
        last.0.push(last.1)
    } else {
        last.0
    }
}

proof fn lemma_encode_utf8_concat(a: Seq<char>, b: Seq<char>)
    ensures
        encode_utf8(a + b) == encode_utf8(a) + encode_utf8(b),
    decreases a.len(),
{
    if a.len() == 0 {
        assert(a + b =~= b);
        assert(encode_utf8(a) + encode_utf8(b) =~= encode_utf8(b));
    } else {
        lemma_encode_utf8_concat(a.drop_first(), b);
        assert((a + b).drop_first() =~= a.drop_first() + b);
        assert((a + b)[0] == a[0]);
        assert(encode_utf8(a + b) =~= encode_utf8(a) + encode_utf8(b));
    }
}

proof fn lemma_byte_len_join(a: Seq<char>, b: Seq<char>)
    ensures
        byte_len(a + seq![' '] + b) == byte_len(a) + 1 + byte_len(b),
{
    lemma_encode_utf8_concat(a, seq![' ']);
    lemma_encode_utf8_concat(a + seq![' '], b);
    let space = seq![' '];
    assert(space.drop_first() =~= Seq::<char>::empty());
    assert((' ' as u32) == 32);
    assert(vstd::utf8::has_width_1_encoding(space[0] as u32));
    assert(encode_utf8(space) == vstd::utf8::encode_scalar(space[0] as u32) + encode_utf8(space.drop_first()));
    assert(encode_utf8(space).len() == 1);
}

proof fn lemma_wrap_state_fits(words: Seq<Seq<char>>, max_width: nat, n: nat)
    requires
        n <= words.len(),
        forall|i: int| 0 <= i < words.len() ==> 0 < #[trigger] byte_len(words[i]) < max_width,
    ensures
        wrap_state(words, max_width, n).2 <= max_width,
        (wrap_state(words, max_width, n).2 == 0) == (n == 0),
        wrap_state(words, max_width, n).2 > 0 ==> {
            &&& byte_len(wrap_state(words, max_width, n).1) + 1 == wrap_state(words, max_width, n).2
            &&& byte_len(wrap_state(words, max_width, n).1) > 0
        },
        forall|i: int|
            0 <= i < wrap_state(words, max_width, n).0.len() ==> 0 < #[trigger] byte_len(
                wrap_state(words, max_width, n).0[i],
            ) < max_width,
    decreases n,
{
    if n > 0 {
        lemma_wrap_state_fits(words, max_width, (n - 1) as nat);
        let prev = wrap_state(words, max_width, (n - 1) as nat);
        let w = words[n - 1];
        assert(0 < byte_len(w) < max_width);
        if !(prev.2 + byte_len(w) + 1 > max_width) && prev.2 != 0 {
            lemma_byte_len_join(prev.1, w);
        }
        let next = wrap_state(words, max_width, n);
        assert forall|i: int| 0 <= i < next.0.len() implies 0 < #[trigger] byte_len(next.0[i]) < max_width by {
            if i < prev.0.len() {
                assert(next.0[i] == prev.0[i]);
            }
        }
    }
}

/// When every word takes more than zero and fewer than `max_width` bytes,
/// every wrapped line does too, and lines come out exactly when words go in.
pub proof fn lemma_wrap_lines_fit(words: Seq<Seq<char>>, max_width: nat)
    requires
        forall|i: int| 0 <= i < words.len() ==> 0 < #[trigger] byte_len(words[i]) < max_width,
    ensures
        forall|i: int|
            0 <= i < wrap_lines(words, max_width).len() ==> 0 < #[trigger] byte_len(
                wrap_lines(words, max_width)[i],
            ) < max_width,
        (wrap_lines(words, max_width).len() == 0) == (words.len() == 0),
{
    lemma_wrap_state_fits(words, max_width, words.len());
    let last = wrap_state(words, max_width, words.len());
    let lines = wrap_lines(words, max_width);
    assert forall|i: int| 0 <= i < lines.len() implies 0 < #[trigger] byte_len(lines[i]) < max_width by {
        if i < last.0.len() {
            assert(lines[i] == last.0[i]);
        }
    }
}

proof fn lemma_words_from_nonempty(s: Seq<char>, current: Seq<char>)
    ensures
        forall|i: int| 0 <= i < words_from(s, current).len() ==> #[trigger] words_from(s, current)[i].len() > 0,
    decreases s.len(),
{
    let done: Seq<Seq<char>> = if current.len() > 0 {
        seq![current]
    } else {
        Seq::empty()
    };
    if s.len() == 0 {
        assert(words_from(s, current) == done);
        assert forall|i: int| 0 <= i < done.len() implies #[trigger] done[i].len() > 0 by {
            assert(done[i] == current);
        }
    } else {
        if is_white_space(s[0]) {
            lemma_words_from_nonempty(s.drop_first(), Seq::empty());
            let rest = words_from(s.drop_first(), Seq::empty());
            assert(words_from(s, current) == done + rest);
            assert forall|i: int| 0 <= i < (done + rest).len() implies #[trigger] (done + rest)[i].len() > 0 by {
                if i >= done.len() {
                    assert((done + rest)[i] == rest[i - done.len()]);
                } else {
                    assert((done + rest)[i] == current);
                }
            }
        } else {
            lemma_words_from_nonempty(s.drop_first(), current.push(s[0]));
            assert(words_from(s, current) == words_from(s.drop_first(), current.push(s[0])));
        }
    }
}

proof fn lemma_byte_len_positive(w: Seq<char>)
    requires
        w.len() > 0,
    ensures
        byte_len(w) > 0,
{
    assert(encode_utf8(w) == vstd::utf8::encode_scalar(w[0] as u32) + encode_utf8(w.drop_first()));
}

/// When every word of `text` takes fewer than `max_width` bytes, every line
/// of `wrap_text(text, max_width)` is non-empty and shorter than `max_width`
/// bytes, and there are no lines exactly when `text` has no words.
pub proof fn lemma_wrap_text_fits(text: Seq<char>, max_width: nat)
    requires
        forall|i: int| 0 <= i < words_of(text).len() ==> #[trigger] byte_len(words_of(text)[i]) < max_width,
    ensures
        forall|i: int|
            0 <= i < wrap_lines(words_of(text), max_width).len() ==> 0 < #[trigger] byte_len(
                wrap_lines(words_of(text), max_width)[i],
            ) < max_width,
        (wrap_lines(words_of(text), max_width).len() == 0) == (words_of(text).len() == 0),
{
    let words = words_of(text);
    lemma_words_from_nonempty(text, Seq::empty());
    assert forall|i: int| 0 <= i < words.len() implies 0 < #[trigger] byte_len(words[i]) < max_width by {
        lemma_byte_len_positive(words[i]);
    }
    lemma_wrap_lines_fit(words, max_width);
}

/// Pack `words` on lines of at most `max_width` bytes of UTF-8.
pub fn wrap_words(words: &[String], max_width: usize) -> (r: Vec<String>)
    ensures
        r@.map_values(|l: String| l@) == wrap_lines(words@.map_values(|w: String| w@), max_width as nat),
{
    let ghost ws = words@.map_values(|w: String| w@);
    let mut lines: Vec<String> = Vec::new();
    let mut cur = String::new();
    let mut used: usize = 0;
    let mut i: usize = 0;
    while i < words.len()
        invariant
            ws == words@.map_values(|w: String| w@),
            i <= words@.len(),
            lines@.map_values(|l: String| l@) == wrap_state(ws, max_width as nat, i as nat).0,
            cur@ == wrap_state(ws, max_width as nat, i as nat).1,
            used as nat == if wrap_state(ws, max_width as nat, i as nat).2 > usize::MAX {
                usize::MAX as nat
            } else {
                wrap_state(ws, max_width as nat, i as nat).2
            },
        decreases words@.len() - i,
    {
        let ghost prev = wrap_state(ws, max_width as nat, i as nat);
        let ghost old_lines = lines@;
        let w = words[i].as_str();
        assert(w@ == ws[i as int]);
        let b = w.as_bytes().len();
        if used >= max_width || b >= max_width - used {
            lines.push(cur);
            assert(lines@.map_values(|l: String| l@) =~= old_lines.map_values(|l: String| l@).push(prev.1));
            cur = String::from_str(w);
            used = b.saturating_add(1);
        } else {
            if used > 0 {
                push_char(&mut cur, ' ');
            }
            cur.append(w);
            used = used + b + 1;
        }
        i = i + 1;
        assert(cur@ =~= wrap_state(ws, max_width as nat, i as nat).1);
    }
    if used > 0 {
        let ghost old_lines = lines@;
        lines.push(cur);
        assert(lines@.map_values(|l: String| l@) =~= old_lines.map_values(|l: String| l@).push(
            wrap_state(ws, max_width as nat, ws.len()).1,
        ));
    }
    lines
}

/// Wrap `text` into lines of at most `max_width` bytes of UTF-8, breaking only
/// between words; a word longer than `max_width` stands on a line of its own.
pub fn wrap_text(text: &str, max_width: usize) -> (r: Vec<String>)
    ensures
        r@.map_values(|l: String| l@) == wrap_lines(words_of(text@), max_width as nat),
{
    let words = split_words(text);
    wrap_words(words.as_slice(), max_width)
}

/// The indentation, and the prefix in its colour when there is one.
pub open spec fn lead_texts(cfg: InputConfig) -> Seq<Text> {
    (if cfg.indent_level > 0 {
        seq![Text::Plain(blank(cfg.indent_level as nat))]
    } else {
        Seq::empty()
    }) + (if cfg.prefix@.len() > 0 {
        seq![Text::Styled(cfg.prefix@, cfg.prefix_color)]
    } else {
        Seq::empty()
    })
}

fn push_lead(pieces: &mut Vec<Piece>, cfg: &InputConfig)
    ensures
        texts(final(pieces)@) == texts(old(pieces)@) + lead_texts(*cfg),
{
    if cfg.indent_level > 0 {
        pieces.push(Piece::Plain(blank_string(cfg.indent_level)));
    }
    if cfg.prefix.as_str().unicode_len() > 0 {
        pieces.push(Piece::Styled(cfg.prefix.clone(), cfg.prefix_color));
    }
    assert(texts(pieces@) =~= texts(old(pieces)@) + lead_texts(*cfg));
}

/// What a single-line prompt prints before reading: the indentation, the
/// prefix, and the prompt in its colour.
pub fn prompt_pieces(cfg: &InputConfig) -> (r: Vec<Piece>)
    ensures
        texts(r@) == lead_texts(*cfg) + seq![Text::Styled(cfg.prompt@, cfg.prompt_color)],
{
    let mut pieces: Vec<Piece> = Vec::new();
    push_lead(&mut pieces, cfg);
    pieces.push(Piece::Styled(cfg.prompt.clone(), cfg.prompt_color));
    assert(texts(pieces@) =~= lead_texts(*cfg) + seq![Text::Styled(cfg.prompt@, cfg.prompt_color)]);
    pieces
}

/// What a multi-line prompt prints once before reading: the indentation, the
/// prefix, and the prompt with the terminator to end with, on a line of its own.
pub fn multiline_header_pieces(cfg: &InputConfig, terminator: &str) -> (r: Vec<Piece>)
    ensures
        texts(r@) == lead_texts(*cfg) + seq![
            Text::Styled(cfg.prompt@ + " (end with '"@ + terminator@ + "' on new line)\n"@, cfg.prompt_color),
        ],
{
    let mut pieces: Vec<Piece> = Vec::new();
    push_lead(&mut pieces, cfg);
    let mut header = cfg.prompt.clone();
    header.append(" (end with '");
    header.append(terminator);
    header.append("' on new line)\n");
    pieces.push(Piece::Styled(header, cfg.prompt_color));
    assert(texts(pieces@) =~= lead_texts(*cfg) + seq![
        Text::Styled(cfg.prompt@ + " (end with '"@ + terminator@ + "' on new line)\n"@, cfg.prompt_color),
    ]);
    pieces
}

/// `line` without one trailing line break (`\n` or `\r\n`).
pub open spec fn without_line_ending(line: Seq<char>) -> Seq<char> {
    if line.len() > 0 && line.last() == '\n' {
        let rest = line.drop_last();
        if rest.len() > 0 && rest.last() == '\r' {
            rest.drop_last()
        } else {
            rest
        }
    } else {
        line
    }
}

/// Remove one trailing line break (`\n` or `\r\n`) from a line that was read.
pub fn strip_line_ending(line: &str) -> (r: String)
    ensures
        r@ == without_line_ending(line@),
{
    let n = line.unicode_len();
    let mut end = n;
    if end > 0 && line.get_char(end - 1) == '\n' {
        end = end - 1;
        if end > 0 && line.get_char(end - 1) == '\r' {
            end = end - 1;
        }
    }
    let r = String::from_str(line.substring_char(0, end));
    assert(r@ =~= without_line_ending(line@));
    r
}

/// Whether a line read by a multi-line prompt ends the input: it does when,
/// trimmed, it is the terminator.
pub fn is_terminator(line: &str, terminator: &str) -> (r: bool)
    ensures
        r == (trim_of(line@) == terminator@),
{
    same_text(trim(line), terminator)
}

/// The first `n` lines, each but the last followed by a line break.
pub open spec fn joined(lines: Seq<Seq<char>>, n: nat) -> Seq<char>
    decreases n,
{
    if n == 0 || n > lines.len() {
        Seq::empty()
    } else if n == 1 {
        lines[0]
    } else {
        joined(lines, (n - 1) as nat) + "\n"@ + lines[n - 1]
    }
}

/// The lines of a multi-line input, joined by line breaks.
pub fn join_lines(lines: &[String]) -> (r: String)
    ensures
        r@ == joined(lines@.map_values(|l: String| l@), lines@.len()),
{
    let ghost ls = lines@.map_values(|l: String| l@);
    let mut s = String::new();
    let mut i: usize = 0;
    while i < lines.len()
        invariant
            ls == lines@.map_values(|l: String| l@),
            i <= lines@.len(),
            s@ == joined(ls, i as nat),
        decreases lines@.len() - i,
    {
        if i > 0 {
            s.append("\n");
        }
        s.append(lines[i].as_str());
        i = i + 1;
        assert(s@ =~= joined(ls, i as nat));
    }
    s
}

/// A key press while a secret is typed.
#[derive(Debug, Clone, Copy, PartialEq, Eq, Structural)]
pub enum SecretKey {
    /// A character key; the flag tells whether Control was held.
    Char(char, bool),
    Backspace,
    Enter,
    Other,
}

/// Where typing a secret stands after a key press.
#[derive(Debug, Clone, Copy, PartialEq, Eq, Structural)]
pub enum SecretStatus {
    /// Still reading keys.
    Reading,
    /// Enter was pressed: the secret is complete.
    Done,
    /// Control-C was pressed: the input is abandoned.
    Interrupted,
}

/// The secret typed so far after `key`.
pub open spec fn secret_next(buffer: Seq<char>, key: SecretKey) -> Seq<char> {
    match key {
        SecretKey::Char(c, control) => if c == 'c' && control {
            buffer
        } else {
            buffer.push(c)
        },
        SecretKey::Backspace => if buffer.len() > 0 {
            buffer.drop_last()
        } else {
            buffer
        },
        _ => buffer,
    }
}

/// Apply one key press while a secret is typed: Control-C abandons the input,
/// Enter completes it, a character is added, Backspace removes the last one.
pub fn secret_key(buffer: &mut Vec<char>, key: SecretKey) -> (r: SecretStatus)
    ensures
        final(buffer)@ == secret_next(old(buffer)@, key),
        r == match key {
            SecretKey::Char(c, control) => if c == 'c' && control {
                SecretStatus::Interrupted
            } else {
                SecretStatus::Reading
            },
            SecretKey::Enter => SecretStatus::Done,
            _ => SecretStatus::Reading,
        },
{
    match key {
        SecretKey::Char(c, control) => {
            if c == 'c' && control {
                return SecretStatus::Interrupted;
            }
            buffer.push(c);
            SecretStatus::Reading
        },
        SecretKey::Backspace => {
            if buffer.len() > 0 {
                buffer.pop();
            }
            SecretStatus::Reading
        },
        SecretKey::Enter => SecretStatus::Done,
        SecretKey::Other => SecretStatus::Reading,
    }
}

} // verus!
