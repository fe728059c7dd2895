use vstd::prelude::*;

verus! {

/// The 16 standard ANSI terminal colors.
///
/// Includes 8 standard colors (SGR codes 30–37) and 8 bright variants (SGR codes 90–97).
#[derive(Clone, Copy, Debug, PartialEq, Eq, Structural)]
pub enum Color {
    Black,
    Red,
    Green,
    Yellow,
    Blue,
    Magenta,
    Cyan,
    White,
    BrightBlack,
    BrightRed,
    BrightGreen,
    BrightYellow,
    BrightBlue,
    BrightMagenta,
    BrightCyan,
    BrightWhite,
}

/// Text style modifiers (bold, dim, italic, underline, strikethrough, ...).
#[derive(Clone, Copy, Debug, PartialEq, Eq, Hash, Structural)]
pub enum Style {
    Bold,
    Dim,
    Italic,
    Underline,
    Blink,
    RapidBlink,
    Reverse,
    Hidden,
    Strikethrough,
    Overline,
}

/// The SGR foreground code of a color.
pub open spec fn spec_fg_code(c: Color) -> u8 {
    match c {
        Color::Black => 30,
        Color::Red => 31,
        Color::Green => 32,
        Color::Yellow => 33,
        Color::Blue => 34,
        Color::Magenta => 35,
        Color::Cyan => 36,
        Color::White => 37,
        Color::BrightBlack => 90,
        Color::BrightRed => 91,
        Color::BrightGreen => 92,
        Color::BrightYellow => 93,
        Color::BrightBlue => 94,
        Color::BrightMagenta => 95,
        Color::BrightCyan => 96,
        Color::BrightWhite => 97,
    }
}

/// The SGR background code of a color: ten above its foreground code.
pub open spec fn spec_bg_code(c: Color) -> u8 {
    (spec_fg_code(c) + 10) as u8
}

/// The SGR code of a style.
pub open spec fn spec_style_code(s: Style) -> u8 {
    match s {
        Style::Bold => 1,
        Style::Dim => 2,
        Style::Italic => 3,
        Style::Underline => 4,
        Style::Blink => 5,
        Style::RapidBlink => 6,
        Style::Reverse => 7,
        Style::Hidden => 8,
        Style::Strikethrough => 9,
        Style::Overline => 53,
    }
}

/// A color is bright when it is one of the eight `Bright*` variants.
pub open spec fn is_bright(c: Color) -> bool {
    match c {
        Color::BrightBlack | Color::BrightRed | Color::BrightGreen | Color::BrightYellow
        | Color::BrightBlue | Color::BrightMagenta | Color::BrightCyan | Color::BrightWhite => true,
        _ => false,
    }
}

impl Color {
    /// Returns the ANSI SGR foreground code for this color (30–37 or 90–97).
    pub fn fg_code(self) -> (code: u8)
        ensures
            code == spec_fg_code(self),
            !is_bright(self) ==> 30 <= code <= 37,
            is_bright(self) ==> 90 <= code <= 97,
    {
        match self {
            Color::Black => 30,
            Color::Red => 31,
            Color::Green => 32,
            Color::Yellow => 33,
            Color::Blue => 34,
            Color::Magenta => 35,
            Color::Cyan => 36,
            Color::White => 37,
            Color::BrightBlack => 90,
            Color::BrightRed => 91,
            Color::BrightGreen => 92,
            Color::BrightYellow => 93,
            Color::BrightBlue => 94,
            Color::BrightMagenta => 95,
            Color::BrightCyan => 96,
            Color::BrightWhite => 97,
        }
    }

    /// Returns the ANSI SGR background code for this color (foreground code + 10).
    pub fn bg_code(self) -> (code: u8)
        ensures
            code == spec_bg_code(self),
            code == spec_fg_code(self) + 10,
    {
        self.fg_code() + 10
    }
}

impl Style {
    /// Returns the ANSI SGR code for this style.
    pub fn code(self) -> (c: u8)
        ensures
            c == spec_style_code(self),
    {
        match self {
            Style::Bold => 1,
            Style::Dim => 2,
            Style::Italic => 3,
            Style::Underline => 4,
            Style::Blink => 5,
            Style::RapidBlink => 6,
            Style::Reverse => 7,
            Style::Hidden => 8,
            Style::Strikethrough => 9,
            Style::Overline => 53,
        }
    }
}

} // verus!
