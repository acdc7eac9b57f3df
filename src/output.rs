use vstd::prelude::*;

use vstd::string::{StrSliceExecFns, StringExecFns};

use crate::color::Color;
use crate::input::{wrap_lines, wrap_text, words_of};
use crate::text::blank_string;
use crate::text::blank;

verus! {

/// A piece of text to print, plain or in a colour.
#[derive(Debug, PartialEq, Eq)]
pub enum Piece {
    Plain(String),
    Styled(String, Color),
}

/// The meaning of a `Piece`, with text as a sequence of characters.
pub enum Text {
    Plain(Seq<char>),
    Styled(Seq<char>, Color),
}

impl View for Piece {
    type V = Text;

    open spec fn view(&self) -> Text {
        match self {
            Piece::Plain(s) => Text::Plain(s@),
            Piece::Styled(s, c) => Text::Styled(s@, *c),
        }
    }
}

pub open spec fn texts(pieces: Seq<Piece>) -> Seq<Text> {
    pieces.map_values(|p: Piece| p@)
}

/// Configuration for printing styled messages.
#[derive(Debug, Clone)]
pub struct OutputConfig {
    /// Text shown before each line of a message.
    pub prefix: String,
    /// Colour of the prefix and of the log-level tag.
    pub prefix_color: Color,
    /// Colour of the message text.
    pub text_color: Color,
    /// Optional tag (such as `INFO`) shown as `[tag] ` before each line.
    pub log_level: Option<String>,
    /// Number of spaces to indent each line.
    pub indent_level: usize,
    /// Maximum width of a line, in bytes of UTF-8, before wrapping.
    pub max_chars_per_line: usize,
}

impl Default for OutputConfig {
    /// No prefix, green prefix colour, white text, no log level, no
    /// indentation and 80 characters per line.
    fn default() -> (r: Self)
        ensures
            r.prefix@ == Seq::<char>::empty(),
            r.prefix_color == Color::Green,
            r.text_color == Color::White,
            r.log_level is None,
            r.indent_level == 0,
            r.max_chars_per_line == 80,
    {
        OutputConfig {
            prefix: String::new(),
            prefix_color: Color::Green,
            text_color: Color::White,
            log_level: None,
            indent_level: 0,
            max_chars_per_line: 80,
        }
    }
}

/// The pieces of one printed line: the indentation, the prefix and the
/// `[level] ` tag in the prefix colour, the line in the text colour, and a
/// line break.
pub open spec fn line_texts(cfg: OutputConfig, line: Seq<char>) -> Seq<Text> {
    (if cfg.indent_level > 0 {
        seq![Text::Plain(blank(cfg.indent_level as nat))]
    } else {
        Seq::empty()
    }) + (if cfg.prefix@.len() > 0 {
        seq![Text::Styled(cfg.prefix@, cfg.prefix_color)]
    } else {
        Seq::empty()
    }) + (match cfg.log_level {
        Some(level) => seq![Text::Styled("["@ + level@ + "] "@, cfg.prefix_color)],
        None => Seq::empty(),
    }) + seq![Text::Styled(line, cfg.text_color), Text::Plain("\n"@)]
}

/// The pieces of the first `n` lines.
pub open spec fn lines_texts(cfg: OutputConfig, lines: Seq<Seq<char>>, n: nat) -> Seq<Text>
    decreases n,
{
    if n == 0 || n > lines.len() {
        Seq::empty()
    } else {
        lines_texts(cfg, lines, (n - 1) as nat) + line_texts(cfg, lines[n - 1])
    }
}

fn push_line_pieces(pieces: &mut Vec<Piece>, cfg: &OutputConfig, line: String)
    ensures
        texts(final(pieces)@) == texts(old(pieces)@) + line_texts(*cfg, line@),
{
    let ghost l = line@;
    if cfg.indent_level > 0 {
        pieces.push(Piece::Plain(blank_string(cfg.indent_level)));
    }
    if cfg.prefix.as_str().unicode_len() > 0 {
        pieces.push(Piece::Styled(cfg.prefix.clone(), cfg.prefix_color));
    }
    if let Some(level) = &cfg.log_level {
        let mut tag = String::from_str("[");
        tag.append(level.as_str());
        tag.append("] ");
        pieces.push(Piece::Styled(tag, cfg.prefix_color));
    }
    pieces.push(Piece::Styled(line, cfg.text_color));
    pieces.push(Piece::Plain(String::from_str("\n")));
    assert(texts(pieces@) =~= texts(old(pieces)@) + line_texts(*cfg, l));
}

/// What a message prints: the message wrapped at `max_chars_per_line`, each
/// line decorated as `line_texts` says.
pub fn output_pieces(cfg: &OutputConfig, message: &str) -> (r: Vec<Piece>)
    ensures
        texts(r@) == lines_texts(
            *cfg,
            wrap_lines(words_of(message@), cfg.max_chars_per_line as nat),
            wrap_lines(words_of(message@), cfg.max_chars_per_line as nat).len(),
        ),
{
    let lines = wrap_text(message, cfg.max_chars_per_line);
    let ghost ls = lines@.map_values(|l: String| l@);
    let mut pieces: Vec<Piece> = Vec::new();
    let mut i: usize = 0;
    while i < lines.len()
        invariant
            ls == lines@.map_values(|l: String| l@),
            i <= lines@.len(),
            texts(pieces@) == lines_texts(*cfg, ls, i as nat),
        decreases lines@.len() - i,
    {
        let line = lines[i].clone();
        push_line_pieces(&mut pieces, cfg, line);
        i = i + 1;
    }
    pieces
}

} // verus!
