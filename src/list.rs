use vstd::prelude::*;

use crate::color::Color;

verus! {

/// Largest terminal coordinate.
pub const MAX_COORD: u16 = 65535;

/// Configuration for layout and visual behaviour of the selection list.
#[derive(Debug, Clone, Copy, PartialEq, Eq, Structural)]
pub struct ListConfig {
    /// Number of items displayed per row.
    pub items_per_row: usize,
    /// Number of rows displayed per page.
    pub rows_per_page: usize,
    /// Width of each cell in characters.
    pub cell_width: u16,
    /// Foreground colour for items that are not selected.
    pub normal_fg: Color,
    /// Foreground colour for the selected item.
    pub highlight_fg: Color,
}

impl ListConfig {
    /// Items on one page: `items_per_row * rows_per_page`.
    pub open spec fn capacity(&self) -> int {
        self.items_per_row * self.rows_per_page
    }

    /// A usable layout: a non-empty grid whose capacity fits in `usize`, and
    /// whose rows (plus the input line below them) are terminal rows.
    pub open spec fn wf(&self) -> bool {
        &&& self.items_per_row > 0
        &&& self.rows_per_page > 0
        &&& self.rows_per_page < MAX_COORD
        &&& self.cell_width > 0
        &&& self.capacity() <= usize::MAX
    }

    /// Whether this configuration describes a usable layout.
    pub fn is_valid(&self) -> (r: bool)
        ensures
            r == self.wf(),
    {
        if self.items_per_row == 0 || self.rows_per_page == 0 || self.cell_width == 0 {
            return false;
        }
        if self.rows_per_page >= MAX_COORD as usize {
            return false;
        }
        self.items_per_row.checked_mul(self.rows_per_page).is_some()
    }

    /// Items on one page.
    pub fn page_capacity(&self) -> (r: usize)
        requires
            self.wf(),
        ensures
            r == self.capacity(),
            r > 0,
    {
        proof {
            vstd::arithmetic::mul::lemma_mul_strictly_positive(
                self.items_per_row as int,
                self.rows_per_page as int,
            );
        }
        self.items_per_row * self.rows_per_page
    }

    /// Set number of items per row.
    pub fn items_per_row(self, val: usize) -> (r: Self)
        ensures
            r == (ListConfig { items_per_row: val, ..self }),
    {
        ListConfig { items_per_row: val, ..self }
    }

    /// Set number of rows per page.
    pub fn rows_per_page(self, val: usize) -> (r: Self)
        ensures
            r == (ListConfig { rows_per_page: val, ..self }),
    {
        ListConfig { rows_per_page: val, ..self }
    }

    /// Set cell width for rendering items.
    pub fn cell_width(self, val: u16) -> (r: Self)
        ensures
            r == (ListConfig { cell_width: val, ..self }),
    {
        ListConfig { cell_width: val, ..self }
    }

    /// Set the normal foreground colour.
    pub fn normal_fg(self, color: Color) -> (r: Self)
        ensures
            r == (ListConfig { normal_fg: color, ..self }),
    {
        ListConfig { normal_fg: color, ..self }
    }

    /// Set the highlight foreground colour.
    pub fn highlight_fg(self, color: Color) -> (r: Self)
        ensures
            r == (ListConfig { highlight_fg: color, ..self }),
    {
        ListConfig { highlight_fg: color, ..self }
    }
}

impl Default for ListConfig {
    /// Three items per row, five rows per page, cells twenty characters wide,
    /// white text, and yellow for the selected item.
    fn default() -> (r: Self)
        ensures
            r == (ListConfig {
                items_per_row: 3,
                rows_per_page: 5,
                cell_width: 20,
                normal_fg: Color::White,
                highlight_fg: Color::Yellow,
            }),
            r.wf(),
    {
        ListConfig {
            items_per_row: 3,
            rows_per_page: 5,
            cell_width: 20,
            normal_fg: Color::White,
            highlight_fg: Color::Yellow,
        }
    }
}

} // verus!
