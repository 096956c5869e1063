//! What the views share: the key model that input is reduced to, the
//! actions a view can hand back to the shell, and the arithmetic of
//! selection and scrolling.

use vstd::prelude::*;
use crate::git::repository::Repository;

verus! {

/// A key, as the views see it.
#[derive(Debug, Clone, Copy, PartialEq, Eq)]
pub enum Key {
    Char(char),
    Up,
    Down,
    Left,
    Right,
    Enter,
    Esc,
    Backspace,
    PageUp,
    PageDown,
    Other,
}

/// One key press: the key and whether Ctrl was held.
#[derive(Debug, Clone, Copy, PartialEq, Eq)]
pub struct KeyPress {
    pub code: Key,
    pub ctrl: bool,
}

impl KeyPress {
    /// A plain press of `code`, without modifiers.
    pub fn plain(code: Key) -> (r: Self)
        ensures
            r == (KeyPress { code, ctrl: false }),
    {
        KeyPress { code, ctrl: false }
    }

    /// A press of `code` with Ctrl held.
    pub fn with_ctrl(code: Key) -> (r: Self)
        ensures
            r == (KeyPress { code, ctrl: true }),
    {
        KeyPress { code, ctrl: true }
    }
}

/// Types of views available.
#[derive(Debug, Clone, Copy, PartialEq, Eq, Structural)]
pub enum ViewType {
    Main,
    Diff,
    Status,
    Help,
}

/// Actions that views can request of the shell.
#[derive(Debug, PartialEq)]
pub enum Action {
    /// No action.
    NoOp,
    /// Quit the application.
    Quit,
    /// Switch to a different view.
    SwitchView(ViewType),
    /// Push a new view onto the stack.
    PushView(ViewType),
    /// Pop the current view and return to the previous one.
    PopView,
    /// Open a diff view for a specific commit.
    OpenDiff { repo: Repository, commit_id: String, summary: String },
    /// Open a diff view for staged changes.
    OpenStagedDiff { repo: Repository, path: String },
    /// Open a diff view for unstaged changes.
    OpenUnstagedDiff { repo: Repository, path: String },
}

/// The selection index after moving down one row in a list of `len` rows:
/// stops at the last row; an absent selection anchors to the first row.
pub open spec fn sel_next_spec(sel: Option<usize>, len: int) -> usize {
    match sel {
        Some(i) => if i as int >= len - 1 {
            i
        } else {
            (i + 1) as usize
        },
        None => 0,
    }
}

/// The selection index after moving up one row: stops at the first row.
pub open spec fn sel_prev_spec(sel: Option<usize>) -> usize {
    match sel {
        Some(i) => if i == 0 {
            0
        } else {
            (i - 1) as usize
        },
        None => 0,
    }
}

/// The selection index after paging up by `page` rows.
pub open spec fn sel_page_up_spec(sel: Option<usize>, page: int) -> usize {
    match sel {
        Some(i) => if i as int - page < 0 {
            0
        } else {
            (i - page) as usize
        },
        None => 0,
    }
}

/// The selection index after paging down by `page` rows in `len` rows,
/// clamped to the last row.
pub open spec fn sel_page_down_spec(sel: Option<usize>, page: int, len: int) -> usize {
    let cap = if len == 0 {
        0int
    } else {
        len - 1
    };
    match sel {
        Some(i) => if i as int + page > cap {
            cap as usize
        } else {
            (i + page) as usize
        },
        None => 0,
    }
}

/// The scroll offset after scrolling down `amount` in `len` lines, clamped
/// to the last line.
pub open spec fn scroll_down_spec(offset: int, amount: int, len: int) -> int {
    let max = if len == 0 {
        0int
    } else {
        len - 1
    };
    if offset + amount > max {
        max
    } else {
        offset + amount
    }
}

/// The scroll offset after scrolling up `amount`, clamped to the top.
pub open spec fn scroll_up_spec(offset: int, amount: int) -> int {
    if offset - amount < 0 {
        0int
    } else {
        offset - amount
    }
}

/// Moves down one row in a list of `len` rows.
pub fn sel_next(sel: Option<usize>, len: usize) -> (r: usize)
    ensures
        r == sel_next_spec(sel, len as int),
{
    match sel {
        Some(i) => {
            if len == 0 || i >= len - 1 {
                i
            } else {
                i + 1
            }
        },
        None => 0,
    }
}

/// Moves up one row.
pub fn sel_prev(sel: Option<usize>) -> (r: usize)
    ensures
        r == sel_prev_spec(sel),
{
    match sel {
        Some(i) => {
            if i == 0 {
                0
            } else {
                i - 1
            }
        },
        None => 0,
    }
}

/// Pages up by `page` rows.
pub fn sel_page_up(sel: Option<usize>, page: usize) -> (r: usize)
    ensures
        r == sel_page_up_spec(sel, page as int),
{
    match sel {
        Some(i) => {
            if i < page {
                0
            } else {
                i - page
            }
        },
        None => 0,
    }
}

/// Pages down by `page` rows in `len` rows.
pub fn sel_page_down(sel: Option<usize>, page: usize, len: usize) -> (r: usize)
    ensures
        r == sel_page_down_spec(sel, page as int, len as int),
{
    let cap = if len == 0 {
        0
    } else {
        len - 1
    };
    match sel {
        Some(i) => {
            if i >= cap {
                cap
            } else if cap - i <= page {
                cap
            } else {
                i + page
            }
        },
        None => 0,
    }
}

/// Scrolls down by `amount` in `len` lines.
pub fn scroll_down_by(offset: usize, amount: usize, len: usize) -> (r: usize)
    ensures
        r == scroll_down_spec(offset as int, amount as int, len as int),
{
    let max = if len == 0 {
        0
    } else {
        len - 1
    };
    if offset >= max {
        max
    } else if max - offset <= amount {
        max
    } else {
        offset + amount
    }
}

/// The index one past the last visible line, when `height` lines are
/// shown from `offset` out of `len`.
pub open spec fn window_end_spec(offset: int, height: int, len: int) -> int {
    if len > offset {
        if len - offset < height {
            len
        } else {
            offset + height
        }
    } else {
        offset
    }
}

/// Computes where the visible window ends.
pub fn window_end(offset: usize, height: usize, len: usize) -> (r: usize)
    ensures
        r == window_end_spec(offset as int, height as int, len as int),
{
    if len > offset {
        if len - offset < height {
            len
        } else {
            offset + height
        }
    } else {
        offset
    }
}

/// Scrolls up by `amount`.
pub fn scroll_up_by(offset: usize, amount: usize) -> (r: usize)
    ensures
        r == scroll_up_spec(offset as int, amount as int),
{
    if offset < amount {
        0
    } else {
        offset - amount
    }
}

} // verus!
