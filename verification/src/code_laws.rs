use vstd::prelude::*;

use crate::codes::{spec_bg_code, spec_fg_code, spec_style_code, Color, Style};

verus! {

/// The position of a color in the ANSI palette: the eight standard colors in the
/// order black, red, green, yellow, blue, magenta, cyan, white take 0 to 7, and
/// each bright variant sits 60 above its standard color.
pub open spec fn ansi_offset(c: Color) -> int {
    match c {
        Color::Black => 0,
        Color::Red => 1,
        Color::Green => 2,
        Color::Yellow => 3,
        Color::Blue => 4,
        Color::Magenta => 5,
        Color::Cyan => 6,
        Color::White => 7,
        Color::BrightBlack => 60,
        Color::BrightRed => 61,
        Color::BrightGreen => 62,
        Color::BrightYellow => 63,
        Color::BrightBlue => 64,
        Color::BrightMagenta => 65,
        Color::BrightCyan => 66,
        Color::BrightWhite => 67,
    }
}

/// The bright variant of a standard color.
pub open spec fn brightened(c: Color) -> Color {
    match c {
        Color::Black => Color::BrightBlack,
        Color::Red => Color::BrightRed,
        Color::Green => Color::BrightGreen,
        Color::Yellow => Color::BrightYellow,
        Color::Blue => Color::BrightBlue,
        Color::Magenta => Color::BrightMagenta,
        Color::Cyan => Color::BrightCyan,
        Color::White => Color::BrightWhite,
        other => other,
    }
}

/// The foreground code of a color is 30 plus its place in the ANSI palette
/// (black, red, green, yellow, blue, magenta, cyan, white; bright ones 60 higher),
/// its background code is 10 above, and a bright color's codes are 60 above
/// those of its standard color. No two colors share a code.
pub proof fn lemma_color_codes_follow_ansi_order(c: Color, d: Color)
    ensures
        spec_fg_code(c) == 30 + ansi_offset(c),
        spec_bg_code(c) == 40 + ansi_offset(c),
        ansi_offset(c) < 8 ==> spec_fg_code(brightened(c)) == spec_fg_code(c) + 60,
        ansi_offset(c) < 8 ==> spec_bg_code(brightened(c)) == spec_bg_code(c) + 60,
        c != d ==> spec_fg_code(c) != spec_fg_code(d) && spec_bg_code(c) != spec_bg_code(d),
{
}

/// The place of a style in the SGR numbering: bold, dim, italic, underline,
/// blink, rapid blink, reverse, hidden and strikethrough take 1 to 9; overline
/// is 53.
pub open spec fn sgr_style_number(s: Style) -> int {
    match s {
        Style::Bold => 1,
        Style::Dim => 2,
        Style::Italic => 3,
        Style::Underline => 4,
        Style::Blink => 5,
        Style::RapidBlink => 6,
        Style::Reverse => 7,
        Style::Hidden => 8,
        Style::Strikethrough => 9,
        Style::Overline => 53,
    }
}

/// Each style's code is its SGR number, no two styles share a code, and no
/// style code is a color code.
pub proof fn lemma_style_codes_follow_sgr(s: Style, t: Style, c: Color)
    ensures
        spec_style_code(s) == sgr_style_number(s),
        s != t ==> spec_style_code(s) != spec_style_code(t),
        spec_style_code(s) != spec_fg_code(c),
        spec_style_code(s) != spec_bg_code(c),
{
}

} // verus!
