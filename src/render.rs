use vstd::prelude::*;

use crate::color::Color;
use crate::layout::{calculate_page_start, fits_at, page_start};
use crate::list::{ListConfig, MAX_COORD};
use crate::text::{blank, blank_string, cell_label, make_cell_label, push_char};
use vstd::string::StringExecFns;

verus! {

/// One terminal operation of the list's drawing.
#[derive(Debug, PartialEq, Eq)]
pub enum DrawOp {
    /// Move the cursor to (column, row).
    MoveTo(u16, u16),
    /// Set the foreground colour.
    SetFg(Color),
    /// Print text at the cursor.
    Print(String),
    /// Go back to the terminal's default colours.
    ResetColor,
}

/// The meaning of a `DrawOp`, with text as a sequence of characters.
pub enum Draw {
    MoveTo(u16, u16),
    SetFg(Color),
    Print(Seq<char>),
    ResetColor,
}

impl View for DrawOp {
    type V = Draw;

    open spec fn view(&self) -> Draw {
        match self {
            DrawOp::MoveTo(x, y) => Draw::MoveTo(*x, *y),
            DrawOp::SetFg(c) => Draw::SetFg(*c),
            DrawOp::Print(s) => Draw::Print(s@),
            DrawOp::ResetColor => Draw::ResetColor,
        }
    }
}

pub open spec fn draws(ops: Seq<DrawOp>) -> Seq<Draw> {
    ops.map_values(|o: DrawOp| o@)
}

/// Column of the cell at position `i` of the page.
pub open spec fn cell_col(config: ListConfig, col: u16, i: int) -> int {
    col + (i % config.items_per_row as int) * config.cell_width
}

/// Row of the cell at position `i` of the page.
pub open spec fn cell_row(config: ListConfig, row: u16, i: int) -> int {
    row + i / config.items_per_row as int
}

/// Row of the input line, just below the page.
pub open spec fn input_row(config: ListConfig, row: u16) -> int {
    row + config.rows_per_page
}

/// Characters left for an item's text once its number and `". "` are drawn.
pub open spec fn text_width(config: ListConfig) -> nat {
    if config.cell_width >= 4 {
        (config.cell_width - 4) as nat
    } else {
        0
    }
}

/// Blank out the first `n` cells of the page.
pub open spec fn clear_cells(config: ListConfig, col: u16, row: u16, n: nat) -> Seq<Draw>
    decreases n,
{
    if n == 0 {
        Seq::empty()
    } else {
        clear_cells(config, col, row, (n - 1) as nat) + seq![
            Draw::MoveTo(cell_col(config, col, n - 1) as u16, cell_row(config, row, n - 1) as u16),
            Draw::Print(blank(config.cell_width as nat)),
        ]
    }
}

/// Draw the first `n` cells of the page that starts at item `start`.
pub open spec fn draw_cells(
    items: Seq<Seq<char>>,
    selected: int,
    config: ListConfig,
    col: u16,
    row: u16,
    start: int,
    n: nat,
) -> Seq<Draw>
    decreases n,
{
    if n == 0 {
        Seq::empty()
    } else {
        let i = n - 1;
        let global = start + i;
        draw_cells(items, selected, config, col, row, start, (n - 1) as nat) + seq![
            Draw::MoveTo(cell_col(config, col, i) as u16, cell_row(config, row, i) as u16),
            Draw::SetFg(if global == selected { config.highlight_fg } else { config.normal_fg }),
            Draw::Print(cell_label((global + 1) as nat, items[global], text_width(config))),
        ]
    }
}

/// Blank the input line and leave the cursor at its start.
pub open spec fn clear_input_line(config: ListConfig, col: u16, row: u16) -> Seq<Draw> {
    seq![
        Draw::MoveTo(col, input_row(config, row) as u16),
        Draw::Print(blank(config.cell_width as nat)),
        Draw::MoveTo(col, input_row(config, row) as u16),
    ]
}

/// Echo the typed digits, if any, then reset the colour and park the cursor.
pub open spec fn echo_digits(config: ListConfig, col: u16, row: u16, digits: Seq<char>) -> Seq<Draw> {
    (if digits.len() > 0 {
        seq![Draw::SetFg(Color::White), Draw::Print("Input: "@ + digits)]
    } else {
        Seq::empty()
    }) + seq![Draw::ResetColor, Draw::MoveTo(col, input_row(config, row) as u16)]
}

/// Items shown on the page that starts at `start`.
pub open spec fn shown(total: int, start: int, capacity: int) -> nat {
    if total - start < capacity {
        (total - start) as nat
    } else {
        capacity as nat
    }
}

/// The whole drawing of one page: blank every cell, draw the page's items
/// with the selected one highlighted, then the input line.
pub open spec fn page_drawing(
    items: Seq<Seq<char>>,
    selected: int,
    digits: Seq<char>,
    config: ListConfig,
    col: u16,
    row: u16,
) -> Seq<Draw> {
    let start = page_start(selected, config.capacity());
    clear_cells(config, col, row, config.capacity() as nat)
        + draw_cells(items, selected, config, col, row, start, shown(items.len() as int, start, config.capacity()))
        + clear_input_line(config, col, row)
        + echo_digits(config, col, row, digits)
}

/// What is drawn when the list goes away: every cell and the input line blank.
pub open spec fn cleanup_drawing(config: ListConfig, col: u16, row: u16) -> Seq<Draw> {
    clear_cells(config, col, row, config.capacity() as nat) + clear_input_line(config, col, row)
}

proof fn lemma_cell_position(config: ListConfig, col: u16, row: u16, i: int)
    requires
        config.wf(),
        fits_at(config, col, row),
        0 <= i < config.capacity(),
    ensures
        0 <= cell_col(config, col, i) <= MAX_COORD,
        0 <= cell_row(config, row, i) < input_row(config, row) <= MAX_COORD,
{
    let w = config.items_per_row as int;
    vstd::arithmetic::div_mod::lemma_mod_bound(i, w);
    vstd::arithmetic::mul::lemma_mul_inequality(i % w, w - 1, config.cell_width as int);
    vstd::arithmetic::mul::lemma_mul_nonnegative(i % w, config.cell_width as int);
    vstd::arithmetic::div_mod::lemma_multiply_divide_lt(i, w, config.rows_per_page as int);
    vstd::arithmetic::div_mod::lemma_div_pos_is_pos(i, w);
}

/// Screen position of the cell at position `i` of the page.
pub fn cell_position(config: &ListConfig, col: u16, row: u16, i: usize) -> (r: (u16, u16))
    requires
        config.wf(),
        fits_at(*config, col, row),
        i < config.capacity(),
    ensures
        r.0 == cell_col(*config, col, i as int),
        r.1 == cell_row(*config, row, i as int),
{
    proof {
        lemma_cell_position(*config, col, row, i as int);
    }
    let x = col as usize + (i % config.items_per_row) * config.cell_width as usize;
    let y = row as usize + i / config.items_per_row;
    (x as u16, y as u16)
}

fn push_clear_cells(ops: &mut Vec<DrawOp>, config: &ListConfig, col: u16, row: u16)
    requires
        config.wf(),
        fits_at(*config, col, row),
    ensures
        draws(final(ops)@) == draws(old(ops)@) + clear_cells(*config, col, row, config.capacity() as nat),
{
    let ghost before = draws(ops@);
    let capacity = config.page_capacity();
    let mut i: usize = 0;
    while i < capacity
        invariant
            config.wf(),
            fits_at(*config, col, row),
            capacity == config.capacity(),
            i <= capacity,
            draws(ops@) == before + clear_cells(*config, col, row, i as nat),
        decreases capacity - i,
    {
        let (x, y) = cell_position(config, col, row, i);
        let ghost prev = ops@;
        ops.push(DrawOp::MoveTo(x, y));
        ops.push(DrawOp::Print(blank_string(config.cell_width as usize)));
        i = i + 1;
        assert(draws(ops@) =~= draws(prev) + seq![ops@[ops@.len() - 2]@, ops@[ops@.len() - 1]@]);
        assert(draws(ops@) =~= before + clear_cells(*config, col, row, i as nat));
    }
}

fn push_clear_input_line(ops: &mut Vec<DrawOp>, config: &ListConfig, col: u16, row: u16)
    requires
        config.wf(),
        fits_at(*config, col, row),
    ensures
        draws(final(ops)@) == draws(old(ops)@) + clear_input_line(*config, col, row),
{
    let y = (row as usize + config.rows_per_page) as u16;
    ops.push(DrawOp::MoveTo(col, y));
    ops.push(DrawOp::Print(blank_string(config.cell_width as usize)));
    ops.push(DrawOp::MoveTo(col, y));
    assert(draws(ops@) =~= draws(old(ops)@) + clear_input_line(*config, col, row));
}

fn push_draw_cells(
    ops: &mut Vec<DrawOp>,
    items: &[String],
    selected: usize,
    config: &ListConfig,
    col: u16,
    row: u16,
    start: usize,
    n: usize,
)
    requires
        config.wf(),
        fits_at(*config, col, row),
        n <= config.capacity(),
        start + n <= items@.len(),
    ensures
        draws(final(ops)@) == draws(old(ops)@) + draw_cells(
            items@.map_values(|s: String| s@),
            selected as int,
            *config,
            col,
            row,
            start as int,
            n as nat,
        ),
{
    let ghost texts = items@.map_values(|s: String| s@);
    let ghost before = draws(ops@);
    let width: usize = if config.cell_width >= 4 { config.cell_width as usize - 4 } else { 0 };
    let len = items.len();
    let mut i: usize = 0;
    while i < n
        invariant
            config.wf(),
            fits_at(*config, col, row),
            n <= config.capacity(),
            start + n <= items@.len(),
            len == items@.len(),
            texts == items@.map_values(|s: String| s@),
            width == text_width(*config),
            i <= n,
            draws(ops@) == before + draw_cells(texts, selected as int, *config, col, row, start as int, i as nat),
        decreases n - i,
    {
        let global = start + i;
        let (x, y) = cell_position(config, col, row, i);
        let fg = if global == selected { config.highlight_fg } else { config.normal_fg };
        let label = make_cell_label(global + 1, items[global].as_str(), width);
        let ghost prev = ops@;
        ops.push(DrawOp::MoveTo(x, y));
        ops.push(DrawOp::SetFg(fg));
        ops.push(DrawOp::Print(label));
        i = i + 1;
        assert(texts[global as int] == items@[global as int]@);
        assert(draws(ops@) =~= draws(prev) + seq![
            ops@[ops@.len() - 3]@,
            ops@[ops@.len() - 2]@,
            ops@[ops@.len() - 1]@,
        ]);
        assert(draws(ops@) =~= before + draw_cells(texts, selected as int, *config, col, row, start as int, i as nat));
    }
}

fn push_echo_digits(ops: &mut Vec<DrawOp>, config: &ListConfig, col: u16, row: u16, digits: &[char])
    requires
        config.wf(),
        fits_at(*config, col, row),
    ensures
        draws(final(ops)@) == draws(old(ops)@) + echo_digits(*config, col, row, digits@),
{
    if digits.len() > 0 {
        let mut text = String::from_str("Input: ");
        let ghost head = text@;
        let mut i: usize = 0;
        while i < digits.len()
            invariant
                i <= digits@.len(),
                text@ == head + digits@.take(i as int),
            decreases digits@.len() - i,
        {
            push_char(&mut text, digits[i]);
            i = i + 1;
            assert(text@ =~= head + digits@.take(i as int));
        }
        assert(digits@.take(i as int) =~= digits@);
        ops.push(DrawOp::SetFg(Color::White));
        ops.push(DrawOp::Print(text));
    }
    let y = (row as usize + config.rows_per_page) as u16;
    ops.push(DrawOp::ResetColor);
    ops.push(DrawOp::MoveTo(col, y));
    assert(draws(ops@) =~= draws(old(ops)@) + echo_digits(*config, col, row, digits@));
}

/// Draw the page that holds `selected`: blank every cell of the page, draw
/// the page's items (the selected one in the highlight colour, the others in
/// the normal colour), then blank the input line and echo the typed digits.
pub fn render_page(
    items: &[String],
    selected: usize,
    digit_buffer: &[char],
    config: &ListConfig,
    start_col: u16,
    start_row: u16,
) -> (ops: Vec<DrawOp>)
    requires
        config.wf(),
        fits_at(*config, start_col, start_row),
        selected < items@.len(),
    ensures
        draws(ops@) == page_drawing(
            items@.map_values(|s: String| s@),
            selected as int,
            digit_buffer@,
            *config,
            start_col,
            start_row,
        ),
{
    let capacity = config.page_capacity();
    let start = calculate_page_start(selected, capacity);
    let n = if items.len() - start < capacity { items.len() - start } else { capacity };
    let mut ops: Vec<DrawOp> = Vec::new();
    push_clear_cells(&mut ops, config, start_col, start_row);
    push_draw_cells(&mut ops, items, selected, config, start_col, start_row, start, n);
    push_clear_input_line(&mut ops, config, start_col, start_row);
    push_echo_digits(&mut ops, config, start_col, start_row, digit_buffer);
    assert(draws(ops@) =~= page_drawing(
        items@.map_values(|s: String| s@),
        selected as int,
        digit_buffer@,
        *config,
        start_col,
        start_row,
    ));
    ops
}

/// Blank the list's whole area (every cell and the input line) and leave the
/// cursor at the start of the input line.
pub fn cleanup(config: &ListConfig, start_col: u16, start_row: u16) -> (ops: Vec<DrawOp>)
    requires
        config.wf(),
        fits_at(*config, start_col, start_row),
    ensures
        draws(ops@) == cleanup_drawing(*config, start_col, start_row),
{
    let mut ops: Vec<DrawOp> = Vec::new();
    push_clear_cells(&mut ops, config, start_col, start_row);
    push_clear_input_line(&mut ops, config, start_col, start_row);
    assert(draws(ops@) =~= cleanup_drawing(*config, start_col, start_row));
    ops
}

} // verus!
