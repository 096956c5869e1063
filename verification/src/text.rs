//! The display model: plain colors, styles, and styled text lines. The
//! terminal layer turns these into its own widget types; nothing here
//! touches the screen.

use vstd::prelude::*;

verus! {

/// The terminal colors the views use.
#[derive(Debug, Clone, Copy, PartialEq, Eq, Structural)]
pub enum Color {
    Black,
    Red,
    Green,
    Yellow,
    Blue,
    Magenta,
    Cyan,
    White,
    Gray,
    DarkGray,
}

/// A text style: optional foreground and background colors, and bold.
#[derive(Debug, Clone, Copy, PartialEq, Eq)]
pub struct TextStyle {
    pub fg: Option<Color>,
    pub bg: Option<Color>,
    pub bold: bool,
}

impl TextStyle {
    /// No colors, not bold.
    pub fn plain() -> (r: Self)
        ensures
            r == (TextStyle { fg: None, bg: None, bold: false }),
    {
        TextStyle { fg: None, bg: None, bold: false }
    }

    /// Just a foreground color.
    pub fn fg(c: Color) -> (r: Self)
        ensures
            r == (TextStyle { fg: Some(c), bg: None, bold: false }),
    {
        TextStyle { fg: Some(c), bg: None, bold: false }
    }

    /// A bold foreground color.
    pub fn fg_bold(c: Color) -> (r: Self)
        ensures
            r == (TextStyle { fg: Some(c), bg: None, bold: true }),
    {
        TextStyle { fg: Some(c), bg: None, bold: true }
    }
}

/// A run of text in one style.
#[derive(Debug, PartialEq)]
pub struct StyledSpan {
    pub text: String,
    pub style: TextStyle,
}

impl Clone for StyledSpan {
    fn clone(&self) -> (r: Self)
        ensures
            r == *self,
    {
        StyledSpan { text: self.text.clone(), style: self.style }
    }
}

/// One display line, a sequence of styled spans.
#[derive(Debug, PartialEq)]
pub struct StyledLine {
    pub spans: Vec<StyledSpan>,
}

impl StyledLine {
    /// A line of one styled span.
    pub fn of(text: String, style: TextStyle) -> (r: Self)
        ensures
            r.spans@ == seq![StyledSpan { text, style }],
    {
        let mut spans: Vec<StyledSpan> = Vec::new();
        spans.push(StyledSpan { text, style });
        proof {
            assert(spans@ =~= seq![StyledSpan { text, style }]);
        }
        StyledLine { spans }
    }

    /// Appends one more span.
    pub fn push_span(&mut self, text: String, style: TextStyle)
        ensures
            final(self).spans@ == old(self).spans@.push((StyledSpan { text, style })),
    {
        self.spans.push(StyledSpan { text, style });
    }
}

} // verus!
