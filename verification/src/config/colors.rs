//! Parsing of user-written color and style names into the display model's
//! colors and styles.

use vstd::prelude::*;
use crate::strutil::{contains_seq, find_str, is_first_match, lower_of, lower_str, str_eq, trim_of,
    trim_str};
use crate::text::{Color, TextStyle};

verus! {

/// The color that a normalised (trimmed, lowercased) color name denotes.
/// Unknown names fall back to white.
pub open spec fn parse_color_spec(s: Seq<char>) -> Color {
    if s == "black"@ {
        Color::Black
    } else if s == "red"@ || s == "dark red"@ || s == "bright red"@ {
        Color::Red
    } else if s == "green"@ || s == "dark green"@ || s == "bright green"@ {
        Color::Green
    } else if s == "yellow"@ || s == "dark yellow"@ || s == "bright yellow"@ {
        Color::Yellow
    } else if s == "blue"@ || s == "dark blue"@ || s == "bright blue"@ {
        Color::Blue
    } else if s == "magenta"@ || s == "dark magenta"@ || s == "bright magenta"@ {
        Color::Magenta
    } else if s == "cyan"@ || s == "dark cyan"@ || s == "bright cyan"@ {
        Color::Cyan
    } else if s == "grey"@ || s == "gray"@ {
        Color::Gray
    } else if s == "dark grey"@ || s == "dark gray"@ || s == "dark black"@ || s
        == "bright black"@ {
        Color::DarkGray
    } else {
        Color::White
    }
}

/// Parses a color name, case-insensitively and ignoring surrounding
/// whitespace. The base names and their "dark"/"bright" variants map onto
/// the terminal palette; anything unrecognised falls back to white.
pub fn parse_color(color_str: &str) -> (r: Color)
    ensures
        r == parse_color_spec(lower_of(trim_of(color_str@))),
{
    let lowered = lower_str(trim_str(color_str));
    let s = lowered.as_str();
    if str_eq(s, "black") {
        Color::Black
    } else if str_eq(s, "red") || str_eq(s, "dark red") || str_eq(s, "bright red") {
        Color::Red
    } else if str_eq(s, "green") || str_eq(s, "dark green") || str_eq(s, "bright green") {
        Color::Green
    } else if str_eq(s, "yellow") || str_eq(s, "dark yellow") || str_eq(s, "bright yellow") {
        Color::Yellow
    } else if str_eq(s, "blue") || str_eq(s, "dark blue") || str_eq(s, "bright blue") {
        Color::Blue
    } else if str_eq(s, "magenta") || str_eq(s, "dark magenta") || str_eq(s, "bright magenta") {
        Color::Magenta
    } else if str_eq(s, "cyan") || str_eq(s, "dark cyan") || str_eq(s, "bright cyan") {
        Color::Cyan
    } else if str_eq(s, "grey") || str_eq(s, "gray") {
        Color::Gray
    } else if str_eq(s, "dark grey") || str_eq(s, "dark gray") || str_eq(s, "dark black") || str_eq(
        s,
        "bright black",
    ) {
        Color::DarkGray
    } else {
        Color::White
    }
}

/// The style that a style string denotes: either one color name, or
/// "<fg> on <bg>" split at the first " on ".
pub open spec fn parse_style_spec(s: Seq<char>) -> TextStyle {
    if contains_seq(s, " on "@) {
        let i = choose|i: int| is_first_match(s, " on "@, i);
        TextStyle {
            fg: Some(parse_color_spec(lower_of(trim_of(s.subrange(0, i))))),
            bg: Some(
                parse_color_spec(
                    lower_of(trim_of(s.subrange(i + " on "@.len() as int, s.len() as int))),
                ),
            ),
            bold: false,
        }
    } else {
        TextStyle { fg: Some(parse_color_spec(lower_of(trim_of(s)))), bg: None, bold: false }
    }
}

/// Parses a style string: a color name alone gives a foreground, and
/// "<fg> on <bg>" gives both a foreground and a background.
pub fn parse_style(style_str: &str) -> (r: TextStyle)
    ensures
        r == parse_style_spec(style_str@),
{
    proof {
        reveal_strlit(" on ");
    }
    match find_str(style_str, " on ") {
        Some(idx) => {
            let n = style_str.unicode_len();
            let fg_part = style_str.substring_char(0, idx);
            let bg_part = style_str.substring_char(idx + 4, n);
            let r = TextStyle {
                fg: Some(parse_color(fg_part)),
                bg: Some(parse_color(bg_part)),
                bold: false,
            };
            proof {
                let s = style_str@;
                let d = " on "@;
                assert(contains_seq(s, d));
                let i0 = choose|i: int| is_first_match(s, d, i);
                assert(is_first_match(s, d, idx as int));
                assert(is_first_match(s, d, i0));
                if i0 < idx as int {
                    assert(s.subrange(i0, i0 + d.len() as int) != d);
                } else if i0 > idx as int {
                    assert(s.subrange(idx as int, idx as int + d.len() as int) != d);
                }
                assert(i0 == idx as int);
            }
            r
        },
        None => TextStyle { fg: Some(parse_color(style_str)), bg: None, bold: false },
    }
}

/// The parsed color scheme the views draw with.
#[derive(Debug, Clone, Copy, PartialEq)]
pub struct ColorScheme {
    pub added: Color,
    pub deleted: Color,
    pub modified: Color,
    pub unmodified: Color,
    pub commit_hash: Color,
    pub date: Color,
    pub author: Color,
    pub selected: TextStyle,
    pub status_bar: TextStyle,
}

impl ColorScheme {
    /// Parses a color configuration into concrete colors and styles.
    pub fn from_config(colors: &crate::config::config::Colors) -> (r: Self)
        ensures
            r.added == parse_color_spec(lower_of(trim_of(colors.added@))),
            r.deleted == parse_color_spec(lower_of(trim_of(colors.deleted@))),
            r.modified == parse_color_spec(lower_of(trim_of(colors.modified@))),
            r.unmodified == parse_color_spec(lower_of(trim_of(colors.unmodified@))),
            r.commit_hash == parse_color_spec(lower_of(trim_of(colors.commit_hash@))),
            r.date == parse_color_spec(lower_of(trim_of(colors.date@))),
            r.author == parse_color_spec(lower_of(trim_of(colors.author@))),
            r.selected == parse_style_spec(colors.selected@),
            r.status_bar == parse_style_spec(colors.status_bar@),
    {
        ColorScheme {
            added: parse_color(colors.added.as_str()),
            deleted: parse_color(colors.deleted.as_str()),
            modified: parse_color(colors.modified.as_str()),
            unmodified: parse_color(colors.unmodified.as_str()),
            commit_hash: parse_color(colors.commit_hash.as_str()),
            date: parse_color(colors.date.as_str()),
            author: parse_color(colors.author.as_str()),
            selected: parse_style(colors.selected.as_str()),
            status_bar: parse_style(colors.status_bar.as_str()),
        }
    }
}

} // verus!
