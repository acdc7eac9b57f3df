use vstd::prelude::*;
use vstd::arithmetic::div_mod::{lemma_fundamental_div_mod, lemma_mod_bound};

use crate::list::{ListConfig, MAX_COORD};

verus! {

/// First index of the page that holds `selected`, for pages of `per_page` items.
pub open spec fn page_start(selected: int, per_page: int) -> int {
    (selected / per_page) * per_page
}

/// Pages start at multiples of their capacity and hold the selected index.
pub proof fn lemma_page_start_bounds(selected: int, per_page: int)
    requires
        selected >= 0,
        per_page > 0,
    ensures
        page_start(selected, per_page) % per_page == 0,
        page_start(selected, per_page) <= selected < page_start(selected, per_page) + per_page,
{
    lemma_fundamental_div_mod(selected, per_page);
    lemma_mod_bound(selected, per_page);
    vstd::arithmetic::mul::lemma_mul_is_commutative(selected / per_page, per_page);
    vstd::arithmetic::div_mod::lemma_mod_multiples_basic(selected / per_page, per_page);
}

/// Compute the start index of the page that holds `selected`.
pub fn calculate_page_start(selected: usize, per_page: usize) -> (r: usize)
    requires
        per_page > 0,
    ensures
        r == page_start(selected as int, per_page as int),
        r % per_page == 0,
        r <= selected < r + per_page,
{
    proof {
        lemma_page_start_bounds(selected as int, per_page as int);
    }
    (selected / per_page) * per_page
}

/// Rows the list needs on screen: its page rows and the input line.
pub open spec fn required_height(config: ListConfig) -> int {
    config.rows_per_page + 1
}

/// Where the list goes on screen, given the cursor's row and the terminal's height.
#[derive(Debug, Clone, Copy, PartialEq, Eq, Structural)]
pub enum Space {
    /// Enough rows are left below the cursor: the list starts at this row.
    Fits(u16),
    /// The terminal must scroll by this many new lines first.
    Scroll(u16),
}

/// Rows from `current_row` down to the bottom of a terminal of `terminal_height` rows.
pub open spec fn available_rows(current_row: u16, terminal_height: u16) -> int {
    if terminal_height >= current_row {
        terminal_height - current_row
    } else {
        0
    }
}

/// Rows the list needs on screen: its page rows and the input line.
pub fn required_viewport_height(config: &ListConfig) -> (r: u16)
    requires
        config.wf(),
    ensures
        r == required_height(*config),
{
    (config.rows_per_page + 1) as u16
}

/// Decide where the list starts: at the cursor's row when enough rows are
/// left below it, otherwise after scrolling by the rows that are missing.
pub fn plan_display_space(current_row: u16, terminal_height: u16, config: &ListConfig) -> (r: Space)
    requires
        config.wf(),
    ensures
        available_rows(current_row, terminal_height) >= required_height(*config) ==> r == Space::Fits(current_row),
        available_rows(current_row, terminal_height) < required_height(*config) ==> r == Space::Scroll(
            (required_height(*config) - available_rows(current_row, terminal_height)) as u16,
        ),
{
    let required = required_viewport_height(config);
    let available = terminal_height.saturating_sub(current_row);
    if available < required {
        Space::Scroll(required - available)
    } else {
        Space::Fits(current_row)
    }
}

/// After scrolling, the list starts `required_height` rows above the cursor's
/// new row (at the top row if the terminal is shorter than that).
pub fn start_row_after_scroll(new_row: u16, config: &ListConfig) -> (r: u16)
    requires
        config.wf(),
    ensures
        new_row >= required_height(*config) ==> r == new_row - required_height(*config),
        new_row < required_height(*config) ==> r == 0,
{
    new_row.saturating_sub(required_viewport_height(config))
}

/// The list's cells and its input line lie on the terminal when the grid is
/// anchored at (`col`, `row`).
pub open spec fn fits_at(config: ListConfig, col: u16, row: u16) -> bool {
    &&& col + (config.items_per_row - 1) * config.cell_width <= MAX_COORD
    &&& row + config.rows_per_page <= MAX_COORD
}

/// Whether the list, anchored at (`col`, `row`), lies on the terminal.
pub fn grid_fits(config: &ListConfig, col: u16, row: u16) -> (r: bool)
    requires
        config.wf(),
    ensures
        r == fits_at(*config, col, row),
{
    if row as usize > MAX_COORD as usize - config.rows_per_page {
        return false;
    }
    let room = (MAX_COORD - col) as usize;
    let w = config.cell_width as usize;
    proof {
        let k = config.items_per_row - 1;
        let q = room as int / w as int;
        vstd::arithmetic::div_mod::lemma_fundamental_div_mod(room as int, w as int);
        vstd::arithmetic::div_mod::lemma_mod_bound(room as int, w as int);
        if k <= q {
            assert(k * w <= q * w) by (nonlinear_arith)
                requires k <= q, w > 0;
            assert(q * w == w * q) by (nonlinear_arith);
        } else {
            assert(k * w >= (q + 1) * w) by (nonlinear_arith)
                requires k >= q + 1, w > 0;
            assert((q + 1) * w == w * q + w) by (nonlinear_arith);
        }
    }
    config.items_per_row - 1 <= room / w
}

} // verus!
