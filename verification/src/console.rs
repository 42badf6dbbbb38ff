//! Virtual text console: where the cursor goes when a character is printed, and
//! when the window must scroll.
use vstd::prelude::*;

verus! {

/// Character code of a line feed.
pub const LINE_FEED: i32 = 10;

/// Character code of a carriage return.
pub const CARRIAGE_RETURN: i32 = 13;

/// The cursor of a console and the size of its window, in characters.
#[derive(Clone, Copy, Debug, PartialEq, Eq, Structural)]
pub struct ConsoleCursor {
    /// Column of the cursor.
    pub cursor_x: i32,
    /// Row of the cursor.
    pub cursor_y: i32,
    /// Width of the window.
    pub window_width: i32,
    /// Height of the window.
    pub window_height: i32,
}

/// What printing a character did: whether the library handled it (otherwise the
/// default printer prints it), and how many times the window must scroll up by a
/// row, its last row then being cleared.
#[derive(Clone, Copy, Debug, PartialEq, Eq, Structural)]
pub struct PrintOutcome {
    /// Whether the character was handled.
    pub handled: bool,
    /// Number of rows to scroll.
    pub scrolls: u8,
}

/// The cursor after moving to a new row: one row down, or, from the last row,
/// staying there while the window scrolls.
pub open spec fn new_row_spec(c: ConsoleCursor) -> (ConsoleCursor, bool) {
    if c.cursor_y + 1 >= c.window_height {
        (c, true)
    } else {
        (ConsoleCursor { cursor_y: (c.cursor_y + 1) as i32, ..c }, false)
    }
}

/// The cursor and outcome after printing character `ch`: a line feed starts a new
/// row at its first column, a carriage return goes back to the first column, other
/// characters are left to the default printer; then a cursor past the window's
/// width wraps to a new row.
pub open spec fn print_char_spec(c: ConsoleCursor, ch: i32) -> (ConsoleCursor, PrintOutcome) {
    let (after, handled, scrolled) = if ch == LINE_FEED {
        let (r, s) = new_row_spec(c);
        (ConsoleCursor { cursor_x: 0, ..r }, true, s)
    } else if ch == CARRIAGE_RETURN {
        (ConsoleCursor { cursor_x: 0, ..c }, true, false)
    } else {
        (c, false, false)
    };
    if after.cursor_x >= after.window_width {
        let (r, s) = new_row_spec(ConsoleCursor { cursor_x: 0, ..after });
        (r, PrintOutcome { handled: true, scrolls: ((if scrolled { 1u8 } else { 0u8 }) + (if s { 1u8 } else { 0u8 })) as u8 })
    } else {
        (after, PrintOutcome { handled, scrolls: if scrolled { 1u8 } else { 0u8 } })
    }
}

/// Moves the cursor to a new row (see [`new_row_spec`]); returns whether the window
/// must scroll.
pub fn new_row(console: &mut ConsoleCursor) -> (scroll: bool)
    requires
        old(console).cursor_y < i32::MAX,
    ensures
        (*final(console), scroll) == new_row_spec(*old(console)),
{
    console.cursor_y = console.cursor_y + 1;
    if console.cursor_y >= console.window_height {
        console.cursor_y = console.cursor_y - 1;
        true
    } else {
        false
    }
}

/// Prints character `ch` (see [`print_char_spec`]).
pub fn print_char(console: &mut ConsoleCursor, ch: i32) -> (outcome: PrintOutcome)
    requires
        old(console).cursor_y < i32::MAX,
    ensures
        (*final(console), outcome) == print_char_spec(*old(console), ch),
{
    let mut scrolls: u8 = 0;
    let ret = if ch == LINE_FEED {
        if new_row(console) {
            scrolls = 1;
        }
        console.cursor_x = 0;
        true
    } else if ch == CARRIAGE_RETURN {
        console.cursor_x = 0;
        true
    } else {
        false
    };
    if console.cursor_x >= console.window_width {
        console.cursor_x = 0;
        if new_row(console) {
            scrolls = scrolls + 1;
        }
        PrintOutcome { handled: true, scrolls }
    } else {
        PrintOutcome { handled: ret, scrolls }
    }
}

/// After printing any character, a cursor that was inside its window stays inside
/// it: its row stays in the window and its column is at most the width.
pub proof fn cursor_stays_in_window(c: ConsoleCursor, ch: i32)
    requires
        0 <= c.cursor_x < c.window_width,
        0 <= c.cursor_y < c.window_height,
    ensures
        0 <= print_char_spec(c, ch).0.cursor_y < c.window_height,
        0 <= print_char_spec(c, ch).0.cursor_x < c.window_width,
        print_char_spec(c, ch).0.window_width == c.window_width,
        print_char_spec(c, ch).0.window_height == c.window_height,
{
}

} // verus!
