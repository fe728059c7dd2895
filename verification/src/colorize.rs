use vstd::prelude::*;

use crate::codes::{Color, Style};
use crate::styled::{StyledString, StyledView};
use crate::text::{bool_string, bool_text, char_string, int_text, signed_text, unsigned_text};

verus! {

/// Chainable color and style methods.
///
/// Implemented for `&str`, `String`, [`StyledString`], the integer types, `bool`
/// and `char`. Each color method sets the foreground (or, with `on_`, the
/// background) color, each style method appends a style; they chain in any order.
pub trait Colorize: Sized {
    /// The styled value that [`Colorize::styled`] makes of `self`.
    spec fn styled_view(&self) -> StyledView;

    /// Wraps the value in a [`StyledString`] with no colors or styles applied.
    fn styled(self) -> (s: StyledString)
        ensures
            s@ == self.styled_view(),
    ;

    /// Sets the foreground color to `Black`.
    fn black(self) -> (s: StyledString)
        ensures
            s@ == self.styled_view().with_fg(Color::Black),
    {
        let mut s = self.styled();
        s.fg = Some(Color::Black);
        s
    }

    /// Sets the foreground color to `Red`.
    fn red(self) -> (s: StyledString)
        ensures
            s@ == self.styled_view().with_fg(Color::Red),
    {
        let mut s = self.styled();
        s.fg = Some(Color::Red);
        s
    }

    /// Sets the foreground color to `Green`.
    fn green(self) -> (s: StyledString)
        ensures
            s@ == self.styled_view().with_fg(Color::Green),
    {
        let mut s = self.styled();
        s.fg = Some(Color::Green);
        s
    }

    /// Sets the foreground color to `Yellow`.
    fn yellow(self) -> (s: StyledString)
        ensures
            s@ == self.styled_view().with_fg(Color::Yellow),
    {
        let mut s = self.styled();
        s.fg = Some(Color::Yellow);
        s
    }

    /// Sets the foreground color to `Blue`.
    fn blue(self) -> (s: StyledString)
        ensures
            s@ == self.styled_view().with_fg(Color::Blue),
    {
        let mut s = self.styled();
        s.fg = Some(Color::Blue);
        s
    }

    /// Sets the foreground color to `Magenta`.
    fn magenta(self) -> (s: StyledString)
        ensures
            s@ == self.styled_view().with_fg(Color::Magenta),
    {
        let mut s = self.styled();
        s.fg = Some(Color::Magenta);
        s
    }

    /// Sets the foreground color to `Cyan`.
    fn cyan(self) -> (s: StyledString)
        ensures
            s@ == self.styled_view().with_fg(Color::Cyan),
    {
        let mut s = self.styled();
        s.fg = Some(Color::Cyan);
        s
    }

    /// Sets the foreground color to `White`.
    fn white(self) -> (s: StyledString)
        ensures
            s@ == self.styled_view().with_fg(Color::White),
    {
        let mut s = self.styled();
        s.fg = Some(Color::White);
        s
    }

    /// Sets the foreground color to `BrightBlack`.
    fn bright_black(self) -> (s: StyledString)
        ensures
            s@ == self.styled_view().with_fg(Color::BrightBlack),
    {
        let mut s = self.styled();
        s.fg = Some(Color::BrightBlack);
        s
    }

    /// Sets the foreground color to `BrightRed`.
    fn bright_red(self) -> (s: StyledString)
        ensures
            s@ == self.styled_view().with_fg(Color::BrightRed),
    {
        let mut s = self.styled();
        s.fg = Some(Color::BrightRed);
        s
    }

    /// Sets the foreground color to `BrightGreen`.
    fn bright_green(self) -> (s: StyledString)
        ensures
            s@ == self.styled_view().with_fg(Color::BrightGreen),
    {
        let mut s = self.styled();
        s.fg = Some(Color::BrightGreen);
        s
    }

    /// Sets the foreground color to `BrightYellow`.
    fn bright_yellow(self) -> (s: StyledString)
        ensures
            s@ == self.styled_view().with_fg(Color::BrightYellow),
    {
        let mut s = self.styled();
        s.fg = Some(Color::BrightYellow);
        s
    }

    /// Sets the foreground color to `BrightBlue`.
    fn bright_blue(self) -> (s: StyledString)
        ensures
            s@ == self.styled_view().with_fg(Color::BrightBlue),
    {
        let mut s = self.styled();
        s.fg = Some(Color::BrightBlue);
        s
    }

    /// Sets the foreground color to `BrightMagenta`.
    fn bright_magenta(self) -> (s: StyledString)
        ensures
            s@ == self.styled_view().with_fg(Color::BrightMagenta),
    {
        let mut s = self.styled();
        s.fg = Some(Color::BrightMagenta);
        s
    }

    /// Sets the foreground color to `BrightCyan`.
    fn bright_cyan(self) -> (s: StyledString)
        ensures
            s@ == self.styled_view().with_fg(Color::BrightCyan),
    {
        let mut s = self.styled();
        s.fg = Some(Color::BrightCyan);
        s
    }

    /// Sets the foreground color to `BrightWhite`.
    fn bright_white(self) -> (s: StyledString)
        ensures
            s@ == self.styled_view().with_fg(Color::BrightWhite),
    {
        let mut s = self.styled();
        s.fg = Some(Color::BrightWhite);
        s
    }

    /// Sets the background color to `Black`.
    fn on_black(self) -> (s: StyledString)
        ensures
            s@ == self.styled_view().with_bg(Color::Black),
    {
        let mut s = self.styled();
        s.bg = Some(Color::Black);
        s
    }

    /// Sets the background color to `Red`.
    fn on_red(self) -> (s: StyledString)
        ensures
            s@ == self.styled_view().with_bg(Color::Red),
    {
        let mut s = self.styled();
        s.bg = Some(Color::Red);
        s
    }

    /// Sets the background color to `Green`.
    fn on_green(self) -> (s: StyledString)
        ensures
            s@ == self.styled_view().with_bg(Color::Green),
    {
        let mut s = self.styled();
        s.bg = Some(Color::Green);
        s
    }

    /// Sets the background color to `Yellow`.
    fn on_yellow(self) -> (s: StyledString)
        ensures
            s@ == self.styled_view().with_bg(Color::Yellow),
    {
        let mut s = self.styled();
        s.bg = Some(Color::Yellow);
        s
    }

    /// Sets the background color to `Blue`.
    fn on_blue(self) -> (s: StyledString)
        ensures
            s@ == self.styled_view().with_bg(Color::Blue),
    {
        let mut s = self.styled();
        s.bg = Some(Color::Blue);
        s
    }

    /// Sets the background color to `Magenta`.
    fn on_magenta(self) -> (s: StyledString)
        ensures
            s@ == self.styled_view().with_bg(Color::Magenta),
    {
        let mut s = self.styled();
        s.bg = Some(Color::Magenta);
        s
    }

    /// Sets the background color to `Cyan`.
    fn on_cyan(self) -> (s: StyledString)
        ensures
            s@ == self.styled_view().with_bg(Color::Cyan),
    {
        let mut s = self.styled();
        s.bg = Some(Color::Cyan);
        s
    }

    /// Sets the background color to `White`.
    fn on_white(self) -> (s: StyledString)
        ensures
            s@ == self.styled_view().with_bg(Color::White),
    {
        let mut s = self.styled();
        s.bg = Some(Color::White);
        s
    }

    /// Sets the background color to `BrightBlack`.
    fn on_bright_black(self) -> (s: StyledString)
        ensures
            s@ == self.styled_view().with_bg(Color::BrightBlack),
    {
        let mut s = self.styled();
        s.bg = Some(Color::BrightBlack);
        s
    }

    /// Sets the background color to `BrightRed`.
    fn on_bright_red(self) -> (s: StyledString)
        ensures
            s@ == self.styled_view().with_bg(Color::BrightRed),
    {
        let mut s = self.styled();
        s.bg = Some(Color::BrightRed);
        s
    }

    /// Sets the background color to `BrightGreen`.
    fn on_bright_green(self) -> (s: StyledString)
        ensures
            s@ == self.styled_view().with_bg(Color::BrightGreen),
    {
        let mut s = self.styled();
        s.bg = Some(Color::BrightGreen);
        s
    }

    /// Sets the background color to `BrightYellow`.
    fn on_bright_yellow(self) -> (s: StyledString)
        ensures
            s@ == self.styled_view().with_bg(Color::BrightYellow),
    {
        let mut s = self.styled();
        s.bg = Some(Color::BrightYellow);
        s
    }

    /// Sets the background color to `BrightBlue`.
    fn on_bright_blue(self) -> (s: StyledString)
        ensures
            s@ == self.styled_view().with_bg(Color::BrightBlue),
    {
        let mut s = self.styled();
        s.bg = Some(Color::BrightBlue);
        s
    }

    /// Sets the background color to `BrightMagenta`.
    fn on_bright_magenta(self) -> (s: StyledString)
        ensures
            s@ == self.styled_view().with_bg(Color::BrightMagenta),
    {
        let mut s = self.styled();
        s.bg = Some(Color::BrightMagenta);
        s
    }

    /// Sets the background color to `BrightCyan`.
    fn on_bright_cyan(self) -> (s: StyledString)
        ensures
            s@ == self.styled_view().with_bg(Color::BrightCyan),
    {
        let mut s = self.styled();
        s.bg = Some(Color::BrightCyan);
        s
    }

    /// Sets the background color to `BrightWhite`.
    fn on_bright_white(self) -> (s: StyledString)
        ensures
            s@ == self.styled_view().with_bg(Color::BrightWhite),
    {
        let mut s = self.styled();
        s.bg = Some(Color::BrightWhite);
        s
    }

    /// Appends the `Bold` style.
    fn bold(self) -> (s: StyledString)
        ensures
            s@ == self.styled_view().with_style(Style::Bold),
    {
        let mut s = self.styled();
        s.styles.push(Style::Bold);
        s
    }

    /// Appends the `Dim` style.
    fn dim(self) -> (s: StyledString)
        ensures
            s@ == self.styled_view().with_style(Style::Dim),
    {
        let mut s = self.styled();
        s.styles.push(Style::Dim);
        s
    }

    /// Appends the `Italic` style.
    fn italic(self) -> (s: StyledString)
        ensures
            s@ == self.styled_view().with_style(Style::Italic),
    {
        let mut s = self.styled();
        s.styles.push(Style::Italic);
        s
    }

    /// Appends the `Underline` style.
    fn underline(self) -> (s: StyledString)
        ensures
            s@ == self.styled_view().with_style(Style::Underline),
    {
        let mut s = self.styled();
        s.styles.push(Style::Underline);
        s
    }

    /// Appends the `Blink` style.
    fn blink(self) -> (s: StyledString)
        ensures
            s@ == self.styled_view().with_style(Style::Blink),
    {
        let mut s = self.styled();
        s.styles.push(Style::Blink);
        s
    }

    /// Appends the `RapidBlink` style.
    fn rapid_blink(self) -> (s: StyledString)
        ensures
            s@ == self.styled_view().with_style(Style::RapidBlink),
    {
        let mut s = self.styled();
        s.styles.push(Style::RapidBlink);
        s
    }

    /// Appends the `Reverse` style.
    fn reverse(self) -> (s: StyledString)
        ensures
            s@ == self.styled_view().with_style(Style::Reverse),
    {
        let mut s = self.styled();
        s.styles.push(Style::Reverse);
        s
    }

    /// Appends the `Hidden` style.
    fn hidden(self) -> (s: StyledString)
        ensures
            s@ == self.styled_view().with_style(Style::Hidden),
    {
        let mut s = self.styled();
        s.styles.push(Style::Hidden);
        s
    }

    /// Appends the `Strikethrough` style.
    fn strikethrough(self) -> (s: StyledString)
        ensures
            s@ == self.styled_view().with_style(Style::Strikethrough),
    {
        let mut s = self.styled();
        s.styles.push(Style::Strikethrough);
        s
    }

    /// Appends the `Overline` style.
    fn overline(self) -> (s: StyledString)
        ensures
            s@ == self.styled_view().with_style(Style::Overline),
    {
        let mut s = self.styled();
        s.styles.push(Style::Overline);
        s
    }
}

impl<'a> Colorize for &'a str {
    open spec fn styled_view(&self) -> StyledView {
        StyledView::plain(self@)
    }

    fn styled(self) -> (s: StyledString) {
        StyledString::plain(self.to_owned())
    }
}

impl Colorize for String {
    open spec fn styled_view(&self) -> StyledView {
        StyledView::plain(self@)
    }

    fn styled(self) -> (s: StyledString) {
        StyledString::plain(self)
    }
}

impl Colorize for StyledString {
    open spec fn styled_view(&self) -> StyledView {
        self@
    }

    fn styled(self) -> (s: StyledString) {
        self
    }
}

impl Colorize for bool {
    open spec fn styled_view(&self) -> StyledView {
        StyledView::plain(bool_text(*self))
    }

    fn styled(self) -> (s: StyledString) {
        StyledString::plain(bool_string(self))
    }
}

impl Colorize for char {
    open spec fn styled_view(&self) -> StyledView {
        StyledView::plain(seq![*self])
    }

    fn styled(self) -> (s: StyledString) {
        StyledString::plain(char_string(self))
    }
}

impl Colorize for i8 {
    open spec fn styled_view(&self) -> StyledView {
        StyledView::plain(int_text(*self as int))
    }

    fn styled(self) -> (s: StyledString) {
        StyledString::plain(signed_text(self as i128))
    }
}

impl Colorize for i16 {
    open spec fn styled_view(&self) -> StyledView {
        StyledView::plain(int_text(*self as int))
    }

    fn styled(self) -> (s: StyledString) {
        StyledString::plain(signed_text(self as i128))
    }
}

impl Colorize for i32 {
    open spec fn styled_view(&self) -> StyledView {
        StyledView::plain(int_text(*self as int))
    }

    fn styled(self) -> (s: StyledString) {
        StyledString::plain(signed_text(self as i128))
    }
}

impl Colorize for i64 {
    open spec fn styled_view(&self) -> StyledView {
        StyledView::plain(int_text(*self as int))
    }

    fn styled(self) -> (s: StyledString) {
        StyledString::plain(signed_text(self as i128))
    }
}

impl Colorize for i128 {
    open spec fn styled_view(&self) -> StyledView {
        StyledView::plain(int_text(*self as int))
    }

    fn styled(self) -> (s: StyledString) {
        StyledString::plain(signed_text(self as i128))
    }
}

impl Colorize for isize {
    open spec fn styled_view(&self) -> StyledView {
        StyledView::plain(int_text(*self as int))
    }

    fn styled(self) -> (s: StyledString) {
        StyledString::plain(signed_text(self as i128))
    }
}

impl Colorize for u8 {
    open spec fn styled_view(&self) -> StyledView {
        StyledView::plain(int_text(*self as int))
    }

    fn styled(self) -> (s: StyledString) {
        StyledString::plain(unsigned_text(self as u128))
    }
}

impl Colorize for u16 {
    open spec fn styled_view(&self) -> StyledView {
        StyledView::plain(int_text(*self as int))
    }

    fn styled(self) -> (s: StyledString) {
        StyledString::plain(unsigned_text(self as u128))
    }
}

impl Colorize for u32 {
    open spec fn styled_view(&self) -> StyledView {
        StyledView::plain(int_text(*self as int))
    }

    fn styled(self) -> (s: StyledString) {
        StyledString::plain(unsigned_text(self as u128))
    }
}

impl Colorize for u64 {
    open spec fn styled_view(&self) -> StyledView {
        StyledView::plain(int_text(*self as int))
    }

    fn styled(self) -> (s: StyledString) {
        StyledString::plain(unsigned_text(self as u128))
    }
}

impl Colorize for u128 {
    open spec fn styled_view(&self) -> StyledView {
        StyledView::plain(int_text(*self as int))
    }

    fn styled(self) -> (s: StyledString) {
        StyledString::plain(unsigned_text(self as u128))
    }
}

impl Colorize for usize {
    open spec fn styled_view(&self) -> StyledView {
        StyledView::plain(int_text(*self as int))
    }

    fn styled(self) -> (s: StyledString) {
        StyledString::plain(unsigned_text(self as u128))
    }
}

} // verus!
