//! Where things go on the screen.
//!
//! The screen shows a window of the lines of a buffer, a gutter with their
//! numbers to the left of it, and a status bar below it. What is computed
//! here is counted in cells of the screen and in lines of the text.

use vstd::prelude::*;
use vstd::string::StringExecFns;
use crate::buffer::{position_before, position_view, Selection};
use crate::text::Position;

verus! {

/// The number of rows at the foot of the screen that show no text.
pub const STATUS_BAR_HEIGHT: u16 = 2;

/// The name of a buffer on the status line: its path, or `[No Name]` without
/// one, and `[+]` behind it where the buffer was changed.
pub open spec fn file_label_text(path: Option<String>, modified: bool) -> Seq<char> {
    let name = match path {
        Some(path) => path@,
        None => "[No Name]"@,
    };
    if modified {
        name + "[+]"@
    } else {
        name
    }
}

/// The number of digits with which `n` is written.
pub open spec fn decimal_digits(n: nat) -> nat
    decreases n,
{
    if n < 10 {
        1
    } else {
        decimal_digits(n / 10) + 1
    }
}

/// The number of columns of the gutter beside a text of `line_count` lines:
/// one more than the digits of `line_count`, and three at the least.
pub open spec fn gutter_columns(line_count: nat) -> nat {
    if decimal_digits(line_count) < 2 {
        3
    } else {
        decimal_digits(line_count) + 1
    }
}

/// Whether the cell at `position` belongs to `selection`: whether it lies at
/// the first end of the selection or behind it, and before the second end.
pub open spec fn selection_covers(
    selection: ((int, int), (int, int)),
    position: (int, int),
) -> bool {
    !position_before(position, selection.0) && position_before(position, selection.1)
}

/// The line above the first line of the window once the window has followed
/// the cursor to line `line`. A window of `height` lines that begins below
/// line `start` shows the lines from `start + 1` to `start + height`. Where
/// `line` is not one of them, or is the line just above them, the window
/// moves so that `line` comes to lie in its middle, or begins with the text
/// where `line` is too near to its start for that.
pub open spec fn window_start_for(start: int, height: int, line: int) -> int {
    if line <= start || line > start + height {
        if line >= height / 2 {
            line - height / 2
        } else {
            0
        }
    } else {
        start
    }
}

/// Ten to the power of `k`.
pub open spec fn power_of_ten(k: nat) -> nat
    decreases k,
{
    if k == 0 {
        1
    } else {
        10 * power_of_ten((k - 1) as nat)
    }
}

/// A number below ten to the power of `k` has at most `k` digits.
pub proof fn lemma_decimal_digits_bound(n: nat, k: nat)
    requires
        1 <= k,
        n < power_of_ten(k),
    ensures
        decimal_digits(n) <= k,
    decreases k,
{
    if n >= 10 {
        if k == 1 {
            reveal_with_fuel(power_of_ten, 2);
        } else {
            lemma_decimal_digits_bound(n / 10, (k - 1) as nat);
        }
    }
}

/// Names a buffer for the status line: by its path, or as `[No Name]` without
/// one, and with `[+]` behind the name where the buffer was changed.
pub fn file_label(path: &Option<String>, modified: bool) -> (label: String)
    ensures
        label@ == file_label_text(*path, modified),
{
    let mut label: String = match path {
        Some(path) => path.clone(),
        None => String::from_str("[No Name]"),
    };
    if modified {
        label.append("[+]");
    }
    label
}

/// Counts the digits with which `n` is written.
pub fn count_digits(n: usize) -> (digits: usize)
    ensures
        digits == decimal_digits(n as nat),
        1 <= digits <= 20,
{
    proof {
        assert(power_of_ten(20) == 100_000_000_000_000_000_000nat) by {
            reveal_with_fuel(power_of_ten, 21);
        }
        lemma_decimal_digits_bound(n as nat, 20);
    }
    let mut digits: usize = 1;
    let mut rest: usize = n;
    while rest >= 10
        invariant
            1 <= digits,
            decimal_digits(n as nat) == decimal_digits(rest as nat) + digits - 1,
            decimal_digits(n as nat) <= 20,
        decreases rest,
    {
        rest = rest / 10;
        digits = digits + 1;
    }
    digits
}

/// The number of columns of the gutter beside a text of `line_count` lines.
pub fn gutter_width(line_count: usize) -> (columns: usize)
    ensures
        columns == gutter_columns(line_count as nat),
        3 <= columns <= 21,
{
    let digits: usize = count_digits(line_count);
    if digits < 2 {
        3
    } else {
        digits + 1
    }
}

/// Tells whether the cell at `position` belongs to `selection`.
pub fn in_selection(selection: Selection, position: Position) -> (covered: bool)
    ensures
        covered == selection_covers(
            (position_view(selection.0), position_view(selection.1)),
            position_view(position),
        ),
{
    let (first, second) = selection;
    let before_first: bool = position.0 < first.0 || (position.0 == first.0 && position.1
        < first.1);
    let before_second: bool = position.0 < second.0 || (position.0 == second.0 && position.1
        < second.1);
    !before_first && before_second
}

/// Moves a window of `height` lines that begins below line `start` so that
/// it shows line `line`, and gives the line below which it then begins.
pub fn scroll_window(start: u16, height: u16, line: u16) -> (scrolled: u16)
    ensures
        scrolled == window_start_for(start as int, height as int, line as int),
{
    let half: u16 = height / 2;
    if line <= start || line as u32 > start as u32 + height as u32 {
        if line >= half {
            line - half
        } else {
            0
        }
    } else {
        start
    }
}

} // verus!
