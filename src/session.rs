use vstd::prelude::*;

use crate::list::ListConfig;

verus! {

/// A key press, as far as the selection list tells keys apart.
#[derive(Debug, Clone, Copy, PartialEq, Eq, Structural)]
pub enum Key {
    Char(char),
    Backspace,
    Left,
    Right,
    Up,
    Down,
    PageUp,
    PageDown,
    Enter,
    Esc,
    Other,
}

/// What a key press leaves the selection list in.
#[derive(Debug, Clone, Copy, PartialEq, Eq, Structural)]
pub enum Outcome {
    /// Still waiting for keys; the page is drawn again.
    Active,
    /// The user chose the item at this zero-based index.
    Confirmed(usize),
    /// The user left without choosing.
    Cancelled,
}

pub open spec fn is_decimal_digit(c: char) -> bool {
    '0' <= c && c <= '9'
}

pub open spec fn digit_value(c: char) -> nat {
    (c as int - '0' as int) as nat
}

/// The number that a string of decimal digits denotes (leading zeros allowed).
pub open spec fn decimal_value(s: Seq<char>) -> nat
    decreases s.len(),
{
    if s.len() == 0 {
        0
    } else {
        10 * decimal_value(s.drop_last()) + digit_value(s.last())
    }
}

pub open spec fn all_digits(s: Seq<char>) -> bool {
    forall|i: int| 0 <= i < s.len() ==> is_decimal_digit(#[trigger] s[i])
}

/// Appending digits never makes the number smaller.
pub proof fn lemma_decimal_value_prefix(s: Seq<char>, i: int)
    requires
        0 <= i <= s.len(),
        all_digits(s),
    ensures
        decimal_value(s.subrange(0, i)) <= decimal_value(s),
    decreases s.len() - i,
{
    if i < s.len() {
        lemma_decimal_value_prefix(s, i + 1);
        assert(s.subrange(0, i + 1).drop_last() =~= s.subrange(0, i));
    } else {
        assert(s.subrange(0, i) =~= s);
    }
}

/// The item that Enter picks: the typed number's item when one is typed and it
/// names an item (1-based), the selected item when nothing is typed, and none
/// otherwise.
pub open spec fn enter_choice(digits: Seq<char>, selected: int, total: int) -> Option<int> {
    if digits.len() == 0 {
        Some(selected)
    } else if 1 <= decimal_value(digits) <= total {
        Some(decimal_value(digits) - 1)
    } else {
        None
    }
}

/// Where a navigation key moves the selection, if the move stays in the list.
pub open spec fn nav_target(key: Key, selected: int, total: int, per_row: int, per_page: int) -> Option<int> {
    match key {
        Key::Left => if selected > 0 { Some(selected - 1) } else { None },
        Key::Right => if selected + 1 < total { Some(selected + 1) } else { None },
        Key::Up => if selected >= per_row { Some(selected - per_row) } else { None },
        Key::Down => if selected + per_row < total { Some(selected + per_row) } else { None },
        Key::PageUp => if selected >= per_page { Some(selected - per_page) } else { None },
        Key::PageDown => if selected + per_page < total { Some(selected + per_page) } else { None },
        _ => None,
    }
}

pub open spec fn is_navigation(key: Key) -> bool {
    match key {
        Key::Left | Key::Right | Key::Up | Key::Down | Key::PageUp | Key::PageDown => true,
        _ => false,
    }
}

/// The selected index and the typed digits after `key`, in a list of `total`
/// items laid out `per_row` to a row and `per_page` to a page.
pub open spec fn step(
    key: Key,
    selected: int,
    digits: Seq<char>,
    total: int,
    per_row: int,
    per_page: int,
) -> (int, Seq<char>) {
    match key {
        Key::Char(c) => if is_decimal_digit(c) {
            (selected, digits.push(c))
        } else {
            (selected, digits)
        },
        Key::Backspace => if digits.len() > 0 {
            (selected, digits.drop_last())
        } else {
            (selected, digits)
        },
        _ => match nav_target(key, selected, total, per_row, per_page) {
            Some(t) => (t, Seq::empty()),
            None => (selected, digits),
        },
    }
}

/// The state after a sequence of key presses, each applied by `step`.
pub open spec fn run(
    keys: Seq<Key>,
    selected: int,
    digits: Seq<char>,
    total: int,
    per_row: int,
    per_page: int,
) -> (int, Seq<char>)
    decreases keys.len(),
{
    if keys.len() == 0 {
        (selected, digits)
    } else {
        let next = step(keys[0], selected, digits, total, per_row, per_page);
        run(keys.drop_first(), next.0, next.1, total, per_row, per_page)
    }
}

/// What `key` leaves the list in.
pub open spec fn outcome_of(key: Key, selected: int, digits: Seq<char>, total: int) -> Outcome {
    match key {
        Key::Enter => match enter_choice(digits, selected, total) {
            Some(i) => Outcome::Confirmed(i as usize),
            None => Outcome::Active,
        },
        Key::Esc => Outcome::Cancelled,
        _ => Outcome::Active,
    }
}

/// Whatever keys are pressed, the selection stays inside the list.
pub proof fn lemma_run_stays_in_range(
    keys: Seq<Key>,
    selected: int,
    digits: Seq<char>,
    total: int,
    per_row: int,
    per_page: int,
)
    requires
        0 <= selected < total,
        per_row > 0,
        per_page > 0,
    ensures
        0 <= run(keys, selected, digits, total, per_row, per_page).0 < total,
    decreases keys.len(),
{
    if keys.len() > 0 {
        let next = step(keys[0], selected, digits, total, per_row, per_page);
        lemma_run_stays_in_range(keys.drop_first(), next.0, next.1, total, per_row, per_page);
    }
}

/// A navigation key whose move would leave the list changes nothing.
pub proof fn lemma_rejected_move_changes_nothing(
    key: Key,
    selected: int,
    digits: Seq<char>,
    total: int,
    per_row: int,
    per_page: int,
)
    requires
        is_navigation(key),
        nav_target(key, selected, total, per_row, per_page) is None,
    ensures
        step(key, selected, digits, total, per_row, per_page) == (selected, digits),
{
}

/// The typed digits hold decimal digits only, whatever keys are pressed.
pub proof fn lemma_run_keeps_digits(
    keys: Seq<Key>,
    selected: int,
    digits: Seq<char>,
    total: int,
    per_row: int,
    per_page: int,
)
    requires
        all_digits(digits),
    ensures
        all_digits(run(keys, selected, digits, total, per_row, per_page).1),
    decreases keys.len(),
{
    if keys.len() > 0 {
        let next = step(keys[0], selected, digits, total, per_row, per_page);
        assert(all_digits(next.1)) by {
            if let Key::Char(c) = keys[0] {
                if is_decimal_digit(c) {
                    assert forall|i: int| 0 <= i < next.1.len() implies is_decimal_digit(#[trigger] next.1[i]) by {
                        if i < digits.len() {
                            assert(next.1[i] == digits[i]);
                        }
                    }
                }
            }
        }
        lemma_run_keeps_digits(keys.drop_first(), next.0, next.1, total, per_row, per_page);
    }
}

/// A navigation key that moves the selection clears the typed digits.
pub proof fn lemma_move_clears_digits(
    key: Key,
    selected: int,
    digits: Seq<char>,
    total: int,
    per_row: int,
    per_page: int,
)
    requires
        is_navigation(key),
        nav_target(key, selected, total, per_row, per_page) is Some,
    ensures
        step(key, selected, digits, total, per_row, per_page).1 == Seq::<char>::empty(),
{
}

/// Backspace with nothing typed changes nothing.
pub proof fn lemma_backspace_on_empty(selected: int, total: int, per_row: int, per_page: int)
    ensures
        step(Key::Backspace, selected, Seq::empty(), total, per_row, per_page) == (selected, Seq::<char>::empty()),
{
}

/// Enter on a typed number that names no item (zero, or more than the list
/// holds) keeps the list waiting, with its state unchanged.
pub proof fn lemma_enter_out_of_range(
    selected: int,
    digits: Seq<char>,
    total: int,
    per_row: int,
    per_page: int,
)
    requires
        digits.len() > 0,
        decimal_value(digits) == 0 || decimal_value(digits) > total,
    ensures
        outcome_of(Key::Enter, selected, digits, total) == Outcome::Active,
        step(Key::Enter, selected, digits, total, per_row, per_page) == (selected, digits),
{
}

/// Enter on a typed number `k` with `1 <= k <= total` picks item `k - 1`,
/// whichever item is selected.
pub proof fn lemma_enter_typed_number(selected: int, digits: Seq<char>, total: int)
    requires
        digits.len() > 0,
        1 <= decimal_value(digits) <= total,
        total <= usize::MAX,
    ensures
        outcome_of(Key::Enter, selected, digits, total) == Outcome::Confirmed((decimal_value(digits) - 1) as usize),
{
}

/// Enter with nothing typed picks the selected item.
pub proof fn lemma_enter_picks_selected(selected: int, total: int)
    requires
        0 <= selected < total <= usize::MAX,
    ensures
        outcome_of(Key::Enter, selected, Seq::empty(), total) == Outcome::Confirmed(selected as usize),
{
}

/// Escape always leaves without a choice.
pub proof fn lemma_escape_cancels(selected: int, digits: Seq<char>, total: int)
    ensures
        outcome_of(Key::Esc, selected, digits, total) == Outcome::Cancelled,
{
}

/// The state of one selection: the list's size and layout, the selected
/// index, and the digits typed so far.
pub struct Session {
    pub config: ListConfig,
    pub total: usize,
    pub selected: usize,
    pub digits: Vec<char>,
}

impl Session {
    pub open spec fn wf(&self) -> bool {
        &&& self.config.wf()
        &&& self.total > 0
        &&& self.selected < self.total
        &&& all_digits(self.digits@)
    }

    /// The selected index and the typed digits after `key`.
    pub open spec fn next(&self, key: Key) -> (int, Seq<char>) {
        step(
            key,
            self.selected as int,
            self.digits@,
            self.total as int,
            self.config.items_per_row as int,
            self.config.capacity(),
        )
    }

    /// What `key` leaves the list in.
    pub open spec fn outcome(&self, key: Key) -> Outcome {
        outcome_of(key, self.selected as int, self.digits@, self.total as int)
    }

    /// A fresh selection over `total` items: the first item selected and
    /// nothing typed; `None` when there are no items to choose from.
    pub fn new(total: usize, config: ListConfig) -> (r: Option<Session>)
        requires
            config.wf(),
        ensures
            total == 0 <==> r is None,
            r matches Some(s) ==> {
                &&& s.wf()
                &&& s.config == config
                &&& s.total == total
                &&& s.selected == 0
                &&& s.digits@.len() == 0
            },
    {
        if total == 0 {
            None
        } else {
            Some(Session { config, total, selected: 0, digits: Vec::new() })
        }
    }

    /// The item that Enter would pick now, if any.
    pub fn choice(&self) -> (r: Option<usize>)
        requires
            self.wf(),
        ensures
            r matches Some(i) ==> enter_choice(self.digits@, self.selected as int, self.total as int) == Some(i as int),
            r is None ==> enter_choice(self.digits@, self.selected as int, self.total as int) is None,
    {
        if self.digits.len() == 0 {
            return Some(self.selected);
        }
        let ghost s = self.digits@;
        let mut n: u128 = 0;
        let mut i: usize = 0;
        while i < self.digits.len()
            invariant
                s == self.digits@,
                all_digits(s),
                0 <= i <= s.len(),
                n as nat == decimal_value(s.subrange(0, i as int)),
                n <= self.total,
            decreases s.len() - i,
        {
            let c = self.digits[i];
            let d = (c as u32 - '0' as u32) as u128;
            assert(s.subrange(0, i + 1).drop_last() =~= s.subrange(0, i as int));
            n = n * 10 + d;
            i = i + 1;
            if n > self.total as u128 {
                proof {
                    lemma_decimal_value_prefix(s, i as int);
                }
                return None;
            }
        }
        assert(s.subrange(0, s.len() as int) =~= s);
        if n == 0 {
            None
        } else {
            Some((n - 1) as usize)
        }
    }

    /// Apply one key press.
    pub fn handle_key(&mut self, key: Key) -> (r: Outcome)
        requires
            old(self).wf(),
        ensures
            final(self).wf(),
            final(self).config == old(self).config,
            final(self).total == old(self).total,
            final(self).selected == old(self).next(key).0,
            final(self).digits@ == old(self).next(key).1,
            r == old(self).outcome(key),
    {
        let per_row = self.config.items_per_row;
        let per_page = self.config.page_capacity();
        match key {
            Key::Char(c) => {
                if '0' <= c && c <= '9' {
                    self.digits.push(c);
                }
                Outcome::Active
            },
            Key::Backspace => {
                if self.digits.len() > 0 {
                    self.digits.pop();
                }
                Outcome::Active
            },
            Key::Left => {
                if self.selected > 0 {
                    self.digits.clear();
                    self.selected = self.selected - 1;
                }
                Outcome::Active
            },
            Key::Right => {
                if self.selected + 1 < self.total {
                    self.digits.clear();
                    self.selected = self.selected + 1;
                }
                Outcome::Active
            },
            Key::Up => {
                if self.selected >= per_row {
                    self.digits.clear();
                    self.selected = self.selected - per_row;
                }
                Outcome::Active
            },
            Key::Down => {
                if per_row < self.total - self.selected {
                    self.digits.clear();
                    self.selected = self.selected + per_row;
                }
                Outcome::Active
            },
            Key::PageUp => {
                if self.selected >= per_page {
                    self.digits.clear();
                    self.selected = self.selected - per_page;
                }
                Outcome::Active
            },
            Key::PageDown => {
                if per_page < self.total - self.selected {
                    self.digits.clear();
                    self.selected = self.selected + per_page;
                }
                Outcome::Active
            },
            Key::Enter => match self.choice() {
                Some(i) => Outcome::Confirmed(i),
                None => Outcome::Active,
            },
            Key::Esc => Outcome::Cancelled,
            Key::Other => Outcome::Active,
        }
    }
}

} // verus!
