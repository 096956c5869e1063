//! The help screen: a fixed list of styled lines and a scroll position.

use vstd::prelude::*;
use crate::strutil::{dec_seq, dec_string};
use crate::text::{Color, StyledLine, TextStyle};
use crate::views::view::{scroll_down_spec, scroll_up_spec, window_end_spec, scroll_down_by,
    scroll_up_by, window_end, Action, Key, KeyPress};

verus! {

/// The number of lines in the help text.
pub const HELP_LINE_COUNT: usize = 50;

/// Help view showing keybindings and usage information.
#[derive(Debug)]
pub struct HelpView {
    pub scroll_offset: usize,
    pub lines: Vec<StyledLine>,
}

/// A heading line in the help text.
fn heading(text: &str) -> (r: StyledLine)
    ensures
        r.spans@.len() == 1,
        r.spans@[0].text@ == text@,
{
    StyledLine::of(String::from_str(text), TextStyle::fg_bold(Color::Cyan))
}

/// One "key -> what it does" line.
fn key_line(key: &str, desc: &str) -> (r: StyledLine)
    ensures
        r.spans@.len() == 2,
        r.spans@[0].text@ == key@,
        r.spans@[1].text@ == desc@,
{
    let mut line = StyledLine::of(String::from_str(key), TextStyle::fg(Color::Green));
    line.push_span(String::from_str(desc), TextStyle::plain());
    line
}

/// A plain line of text.
fn text_line(text: &str) -> (r: StyledLine)
    ensures
        r.spans@.len() == 1,
        r.spans@[0].text@ == text@,
{
    StyledLine::of(String::from_str(text), TextStyle::plain())
}

/// The help content.
fn build_help_lines() -> (r: Vec<StyledLine>)
    ensures
        r@.len() == HELP_LINE_COUNT,
        r@[0].spans@.len() == 1,
        r@[0].spans@[0].text@ == "rust-tig - Git TUI Help"@,
        r@[HELP_LINE_COUNT - 1].spans@.len() == 1,
        r@[HELP_LINE_COUNT - 1].spans@[0].text@ == "Press q or Esc to close this help."@,
{
    let mut lines: Vec<StyledLine> = Vec::new();
    lines.push(StyledLine::of(String::from_str("rust-tig - Git TUI Help"), TextStyle::fg_bold(
        Color::Yellow,
    )));
    lines.push(text_line(""));
    lines.push(heading("Global Keybindings"));
    lines.push(key_line("  q         ", "Quit the application or close current view"));
    lines.push(key_line("  Ctrl+C    ", "Force quit"));
    lines.push(key_line("  ?         ", "Show this help"));
    lines.push(key_line("  Esc       ", "Close current view or exit search mode"));
    lines.push(text_line(""));
    lines.push(heading("Main View (Commit History)"));
    lines.push(key_line("  j / Down  ", "Move selection down"));
    lines.push(key_line("  k / Up    ", "Move selection up"));
    lines.push(key_line("  g         ", "Jump to first commit"));
    lines.push(key_line("  G         ", "Jump to last commit"));
    lines.push(key_line("  PageUp    ", "Page up"));
    lines.push(key_line("  PageDown  ", "Page down"));
    lines.push(key_line("  Enter     ", "View commit diff"));
    lines.push(key_line("  /         ", "Start search (search commit messages)"));
    lines.push(key_line("  s         ", "Open status view"));
    lines.push(text_line(""));
    lines.push(heading("Search Mode"));
    lines.push(key_line("  Type      ", "Enter search query"));
    lines.push(key_line("  Backspace ", "Delete character"));
    lines.push(key_line("  Enter     ", "Keep search results and exit search mode"));
    lines.push(key_line("  Esc       ", "Clear search and exit search mode"));
    lines.push(text_line(""));
    lines.push(heading("Status View"));
    lines.push(key_line("  j / Down  ", "Move selection down"));
    lines.push(key_line("  k / Up    ", "Move selection up"));
    lines.push(key_line("  g         ", "Jump to first item"));
    lines.push(key_line("  G         ", "Jump to last item"));
    lines.push(key_line("  PageUp    ", "Page up"));
    lines.push(key_line("  PageDown  ", "Page down"));
    lines.push(key_line("  Enter     ", "View file diff"));
    lines.push(key_line("  u         ", "Stage/unstage selected file"));
    lines.push(key_line("  r         ", "Refresh status"));
    lines.push(text_line(""));
    lines.push(heading("Diff View"));
    lines.push(key_line("  j / Down  ", "Scroll down"));
    lines.push(key_line("  k / Up    ", "Scroll up"));
    lines.push(key_line("  g         ", "Jump to top"));
    lines.push(key_line("  G         ", "Jump to bottom"));
    lines.push(key_line("  PageUp    ", "Page up"));
    lines.push(key_line("  PageDown  ", "Page down"));
    lines.push(key_line("  Esc       ", "Close diff view"));
    lines.push(text_line(""));
    lines.push(heading("About"));
    lines.push(text_line("rust-tig is a terminal-based Git interface inspired by tig."));
    lines.push(text_line("Built with Rust, ratatui, and git2-rs."));
    lines.push(text_line(""));
    lines.push(text_line("Press q or Esc to close this help."));
    lines
}

/// What one key press does to the help view.
pub open spec fn help_key_spec(pre: HelpView, key: KeyPress, post: HelpView, r: Action) -> bool {
    let len = pre.lines@.len() as int;
    match key.code {
        Key::Char(c) => if c == 'q' {
            post == pre && r == Action::PopView
        } else if c == 'j' {
            scrolled_to(pre, post, scroll_down_spec(pre.scroll_offset as int, 1, len)) && r
                == Action::NoOp
        } else if c == 'k' {
            scrolled_to(pre, post, scroll_up_spec(pre.scroll_offset as int, 1)) && r
                == Action::NoOp
        } else if c == 'g' {
            scrolled_to(pre, post, 0) && r == Action::NoOp
        } else if c == 'G' {
            scrolled_to(pre, post, if len == 0 {
                0int
            } else {
                len - 1
            }) && r == Action::NoOp
        } else {
            post == pre && r == Action::NoOp
        },
        Key::Esc => post == pre && r == Action::PopView,
        Key::Down => scrolled_to(pre, post, scroll_down_spec(pre.scroll_offset as int, 1, len))
            && r == Action::NoOp,
        Key::Up => scrolled_to(pre, post, scroll_up_spec(pre.scroll_offset as int, 1)) && r
            == Action::NoOp,
        Key::PageDown => scrolled_to(
            pre,
            post,
            scroll_down_spec(pre.scroll_offset as int, 20, len),
        ) && r == Action::NoOp,
        Key::PageUp => scrolled_to(pre, post, scroll_up_spec(pre.scroll_offset as int, 20)) && r
            == Action::NoOp,
        _ => post == pre && r == Action::NoOp,
    }
}

/// The view after a scroll: only the offset moves.
pub open spec fn scrolled_to(pre: HelpView, post: HelpView, offset: int) -> bool {
    post == (HelpView { scroll_offset: offset as usize, ..pre })
}

impl HelpView {
    /// A fresh help view, scrolled to the top.
    pub fn new() -> (r: Self)
        ensures
            r.scroll_offset == 0,
            r.lines@.len() == HELP_LINE_COUNT,
    {
        HelpView { scroll_offset: 0, lines: build_help_lines() }
    }

    /// The number of help lines.
    pub fn len_lines(&self) -> (r: usize)
        ensures
            r == self.lines@.len(),
    {
        self.lines.len()
    }

    /// One help line, for drawing.
    pub fn line(&self, i: usize) -> (r: &StyledLine)
        requires
            i < self.lines@.len(),
        ensures
            r == self.lines@[i as int],
    {
        &self.lines[i]
    }

    /// Handles one key press: q and Esc close the help; j/k, g/G and the
    /// page keys scroll, clamped to the text.
    pub fn handle_key(&mut self, key: KeyPress) -> (r: Action)
        ensures
            help_key_spec(*old(self), key, *final(self), r),
    {
        match key.code {
            Key::Char(c) => {
                if c == 'q' {
                    Action::PopView
                } else if c == 'j' {
                    self.scroll_offset = scroll_down_by(self.scroll_offset, 1, self.lines.len());
                    Action::NoOp
                } else if c == 'k' {
                    self.scroll_offset = scroll_up_by(self.scroll_offset, 1);
                    Action::NoOp
                } else if c == 'g' {
                    self.scroll_offset = 0;
                    Action::NoOp
                } else if c == 'G' {
                    let len = self.lines.len();
                    self.scroll_offset = if len == 0 {
                        0
                    } else {
                        len - 1
                    };
                    Action::NoOp
                } else {
                    Action::NoOp
                }
            },
            Key::Esc => Action::PopView,
            Key::Down => {
                self.scroll_offset = scroll_down_by(self.scroll_offset, 1, self.lines.len());
                Action::NoOp
            },
            Key::Up => {
                self.scroll_offset = scroll_up_by(self.scroll_offset, 1);
                Action::NoOp
            },
            Key::PageDown => {
                self.scroll_offset = scroll_down_by(self.scroll_offset, 20, self.lines.len());
                Action::NoOp
            },
            Key::PageUp => {
                self.scroll_offset = scroll_up_by(self.scroll_offset, 20);
                Action::NoOp
            },
            _ => Action::NoOp,
        }
    }

    /// Per-frame update. The help view loads nothing, so this never
    /// changes anything.
    pub fn update(&mut self)
        ensures
            *final(self) == *old(self),
    {
    }

    /// The heading over the text: how far the visible window (of
    /// `visible_height` lines) reaches, out of how many lines.
    pub fn title_text(&self, visible_height: usize) -> (r: String)
        ensures
            r@ == "Help - "@ + dec_seq(
                window_end_spec(
                    self.scroll_offset as int,
                    visible_height as int,
                    self.lines@.len() as int,
                ),
            ) + " / "@ + dec_seq(self.lines@.len() as int) + " lines"@,
    {
        let end = window_end(self.scroll_offset, visible_height, self.lines.len());
        String::from_str("Help - ").concat(dec_string(end as u64).as_str()).concat(" / ").concat(
            dec_string(self.lines.len() as u64).as_str(),
        ).concat(" lines")
    }

    /// The view's title, for the status bar.
    pub fn title(&self) -> (r: &'static str)
        ensures
            r@ == "Help"@,
    {
        "Help"
    }
}

impl Default for HelpView {
    fn default() -> (r: Self)
        ensures
            r.scroll_offset == 0,
            r.lines@.len() == HELP_LINE_COUNT,
    {
        HelpView::new()
    }
}

} // verus!
