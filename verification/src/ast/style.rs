//! Style tags and the in-band markers that stand for them in formatted
//! text. The markers are the terminal escape sequences of `termion`.

use vstd::prelude::*;

verus! {

/// Semantic category of a fragment of formatted text.
#[derive(Debug, Clone, Copy, PartialEq, Eq, Structural)]
pub enum Style {
    Number,
    Text,
    Keyword,
    Variable,
    Boolean,
    Type,
}

/// The marker that precedes text of the given style.
pub open spec fn style_marker(style: Style) -> Seq<char> {
    match style {
        Style::Number => "\x1b[38;5;6m"@,
        Style::Text => "\x1b[38;5;15m"@,
        Style::Keyword => "\x1b[38;5;5m"@,
        Style::Variable => "\x1b[38;5;2m"@,
        Style::Boolean => "\x1b[38;5;3m"@,
        Style::Type => "\x1b[38;5;12m"@,
    }
}

/// The marker that ends the styling of a line.
pub open spec fn reset_marker() -> Seq<char> {
    "\x1b[39m"@
}

/// `termion::color::Cyan::fg_str`. Trusted: it returns the escape
/// sequence that selects colour 6 of the 256-colour palette as the
/// foreground.
#[verifier::external_body]
fn cyan_fg() -> (s: &'static str)
    ensures
        s@ == "\x1b[38;5;6m"@,
{
    termion::color::Cyan.fg_str()
}

/// `termion::color::LightWhite::fg_str`. Trusted: it returns the escape
/// sequence that selects colour 15 of the 256-colour palette as the
/// foreground.
#[verifier::external_body]
fn light_white_fg() -> (s: &'static str)
    ensures
        s@ == "\x1b[38;5;15m"@,
{
    termion::color::LightWhite.fg_str()
}

/// `termion::color::Magenta::fg_str`. Trusted: it returns the escape
/// sequence that selects colour 5 of the 256-colour palette as the
/// foreground.
#[verifier::external_body]
fn magenta_fg() -> (s: &'static str)
    ensures
        s@ == "\x1b[38;5;5m"@,
{
    termion::color::Magenta.fg_str()
}

/// `termion::color::Green::fg_str`. Trusted: it returns the escape
/// sequence that selects colour 2 of the 256-colour palette as the
/// foreground.
#[verifier::external_body]
fn green_fg() -> (s: &'static str)
    ensures
        s@ == "\x1b[38;5;2m"@,
{
    termion::color::Green.fg_str()
}

/// `termion::color::Yellow::fg_str`. Trusted: it returns the escape
/// sequence that selects colour 3 of the 256-colour palette as the
/// foreground.
#[verifier::external_body]
fn yellow_fg() -> (s: &'static str)
    ensures
        s@ == "\x1b[38;5;3m"@,
{
    termion::color::Yellow.fg_str()
}

/// `termion::color::LightBlue::fg_str`. Trusted: it returns the escape
/// sequence that selects colour 12 of the 256-colour palette as the
/// foreground.
#[verifier::external_body]
fn light_blue_fg() -> (s: &'static str)
    ensures
        s@ == "\x1b[38;5;12m"@,
{
    termion::color::LightBlue.fg_str()
}

/// The `Display` form of `termion::color::Fg(termion::color::Reset)`.
/// Trusted: it is the escape sequence that restores the default
/// foreground colour, whether or not `NO_COLOR` is set.
#[verifier::external_body]
fn reset_fg() -> (s: String)
    ensures
        s@ == "\x1b[39m"@,
{
    format!("{}", termion::color::Fg(termion::color::Reset))
}

impl Style {
    /// The marker that precedes text of this style.
    pub fn marker(self) -> (s: &'static str)
        ensures
            s@ == style_marker(self),
    {
        match self {
            Style::Number => cyan_fg(),
            Style::Text => light_white_fg(),
            Style::Keyword => magenta_fg(),
            Style::Variable => green_fg(),
            Style::Boolean => yellow_fg(),
            Style::Type => light_blue_fg(),
        }
    }
}

/// The marker that ends the styling of a line.
pub fn reset() -> (s: String)
    ensures
        s@ == reset_marker(),
{
    reset_fg()
}

/// Every marker opens with the escape character, which no source text
/// written in printable characters contains.
pub proof fn lemma_markers_open_with_escape(style: Style)
    ensures
        style_marker(style).len() > 0,
        style_marker(style)[0] == '\x1b',
        reset_marker().len() > 0,
        reset_marker()[0] == '\x1b',
{
    reveal_strlit("\x1b[38;5;6m");
    reveal_strlit("\x1b[38;5;15m");
    reveal_strlit("\x1b[38;5;5m");
    reveal_strlit("\x1b[38;5;2m");
    reveal_strlit("\x1b[38;5;3m");
    reveal_strlit("\x1b[38;5;12m");
    reveal_strlit("\x1b[39m");
}

} // verus!
