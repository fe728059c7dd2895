use vstd::prelude::*;

use crate::codes::{spec_bg_code, spec_fg_code, spec_style_code, Color, Style};
use crate::text::{decimal, push_char, push_decimal};

verus! {

/// The mathematical value of a styled string: its text and every styling choice.
#[verifier::ext_equal]
pub struct StyledView {
    pub text: Seq<char>,
    pub fg: Option<Color>,
    pub bg: Option<Color>,
    pub styles: Seq<Style>,
    pub condition: Option<bool>,
    pub masked: bool,
}

impl StyledView {
    /// Plain text with no color, style, condition or mask.
    pub open spec fn plain(text: Seq<char>) -> StyledView {
        StyledView {
            text,
            fg: None,
            bg: None,
            styles: Seq::empty(),
            condition: None,
            masked: false,
        }
    }

    /// The same value with its foreground color replaced.
    pub open spec fn with_fg(self, c: Color) -> StyledView {
        StyledView { fg: Some(c), ..self }
    }

    /// The same value with its background color replaced.
    pub open spec fn with_bg(self, c: Color) -> StyledView {
        StyledView { bg: Some(c), ..self }
    }

    /// The same value with one more style at the end of its style list.
    pub open spec fn with_style(self, s: Style) -> StyledView {
        StyledView { styles: self.styles.push(s), ..self }
    }

    /// The same value with its condition replaced.
    pub open spec fn with_condition(self, c: bool) -> StyledView {
        StyledView { condition: Some(c), ..self }
    }

    /// The same value marked as decorative.
    pub open spec fn with_mask(self) -> StyledView {
        StyledView { masked: true, ..self }
    }

    /// No color and no style is applied.
    pub open spec fn unstyled(self) -> bool {
        self.fg is None && self.bg is None && self.styles.len() == 0
    }

    /// Whether styling is in effect, given whether colors are globally enabled:
    /// a `false` condition turns it off, anything else defers to the global state.
    pub open spec fn styling_active(self, colors_enabled: bool) -> bool {
        self.condition != Some(false) && colors_enabled
    }

    /// The SGR parameters in the order they are written: styles, then the
    /// foreground color, then the background color.
    pub open spec fn sgr_codes(self) -> Seq<u8> {
        self.styles.map_values(|s: Style| spec_style_code(s)) + (match self.fg {
            Some(c) => seq![spec_fg_code(c)],
            None => Seq::empty(),
        }) + (match self.bg {
            Some(c) => seq![spec_bg_code(c)],
            None => Seq::empty(),
        })
    }

    /// What the value displays as, given whether colors are globally enabled.
    pub open spec fn rendered(self, colors_enabled: bool) -> Seq<char> {
        let active = self.styling_active(colors_enabled);
        if self.masked && !active {
            Seq::empty()
        } else if !active || self.unstyled() {
            self.text
        } else {
            sgr_open() + join_codes(self.sgr_codes()) + seq!['m'] + self.text + sgr_reset()
        }
    }
}

/// The control sequence introducer `ESC [`.
pub open spec fn sgr_open() -> Seq<char> {
    seq!['\x1b', '[']
}

/// The sequence `ESC [ 0 m` that resets all attributes.
pub open spec fn sgr_reset() -> Seq<char> {
    seq!['\x1b', '[', '0', 'm']
}

/// Decimal codes separated by `;`.
pub open spec fn join_codes(codes: Seq<u8>) -> Seq<char>
    decreases codes.len(),
{
    if codes.len() == 0 {
        Seq::empty()
    } else if codes.len() == 1 {
        decimal(codes[0] as nat)
    } else {
        join_codes(codes.drop_last()) + seq![';'] + decimal(codes.last() as nat)
    }
}

/// A string with accumulated ANSI color and style information.
///
/// Created by the `Colorize` methods or by [`style`]. [`StyledString::render`]
/// emits ANSI escape codes when styling is active, or plain text otherwise.
pub struct StyledString {
    pub text: String,
    pub fg: Option<Color>,
    pub bg: Option<Color>,
    pub styles: Vec<Style>,
    pub condition: Option<bool>,
    pub masked: bool,
}

impl View for StyledString {
    type V = StyledView;

    open spec fn view(&self) -> StyledView {
        StyledView {
            text: self.text@,
            fg: self.fg,
            bg: self.bg,
            styles: self.styles@,
            condition: self.condition,
            masked: self.masked,
        }
    }
}

impl StyledString {
    /// Wraps text with no colors or styles applied.
    pub fn plain(text: String) -> (s: StyledString)
        ensures
            s@ == StyledView::plain(text@),
    {
        StyledString {
            text,
            fg: None,
            bg: None,
            styles: Vec::new(),
            condition: None,
            masked: false,
        }
    }

    /// Conditionally enable or disable styling for this value.
    ///
    /// When `condition` is `false`, ANSI codes are suppressed regardless of the
    /// global state. When `true`, the global state applies normally.
    /// If called multiple times, the last call wins.
    pub fn whenever(self, condition: bool) -> (s: Self)
        ensures
            s@ == self@.with_condition(condition),
    {
        let mut s = self;
        s.condition = Some(condition);
        s
    }

    /// Mark this value as decorative so it renders as an empty string when
    /// styling is inactive.
    pub fn mask(self) -> (s: Self)
        ensures
            s@ == self@.with_mask(),
    {
        let mut s = self;
        s.masked = true;
        s
    }

    fn sgr_codes(&self) -> (codes: Vec<u8>)
        ensures
            codes@ == self@.sgr_codes(),
    {
        let mut codes: Vec<u8> = Vec::new();
        let n = self.styles.len();
        for i in 0..n
            invariant
                n == self.styles@.len(),
                codes@ == self@.styles.take(i as int).map_values(|s: Style| spec_style_code(s)),
        {
            let c = self.styles[i].code();
            codes.push(c);
            proof {
                assert(self@.styles.take(i + 1) =~= self@.styles.take(i as int).push(self@.styles[i as int]));
                assert(codes@ =~= self@.styles.take(i + 1).map_values(|s: Style| spec_style_code(s)));
            }
        }
        proof {
            assert(self@.styles.take(n as int) =~= self@.styles);
        }
        let ghost style_codes = codes@;
        match self.fg {
            Some(c) => codes.push(c.fg_code()),
            None => {},
        }
        let ghost with_fg = codes@;
        match self.bg {
            Some(c) => codes.push(c.bg_code()),
            None => {},
        }
        proof {
            assert(with_fg =~= style_codes + (match self.fg {
                Some(c) => seq![spec_fg_code(c)],
                None => Seq::<u8>::empty(),
            }));
            assert(codes@ =~= self@.sgr_codes());
        }
        codes
    }

    /// Renders the value as it displays, given whether colors are globally enabled.
    ///
    /// With styling active and something to apply, the text is wrapped in
    /// `ESC [ codes m` and `ESC [ 0 m`, the codes being those of the styles, then
    /// the foreground, then the background, separated by `;`. Otherwise the text
    /// is returned unchanged, or nothing at all when the value is masked and
    /// styling is inactive.
    pub fn render(&self, colors_enabled: bool) -> (out: String)
        ensures
            out@ == self@.rendered(colors_enabled),
    {
        let styling_active = match self.condition {
            Some(false) => false,
            _ => colors_enabled,
        };
        if self.masked && !styling_active {
            return String::new();
        }
        if !styling_active || (self.fg.is_none() && self.bg.is_none() && self.styles.len() == 0) {
            return self.text.clone();
        }
        let codes = self.sgr_codes();
        let mut out = String::new();
        push_char(&mut out, '\x1b');
        push_char(&mut out, '[');
        let n = codes.len();
        for i in 0..n
            invariant
                n == codes@.len(),
                out@ == sgr_open() + join_codes(codes@.take(i as int)),
        {
            let ghost before = out@;
            if i > 0 {
                push_char(&mut out, ';');
            }
            push_decimal(&mut out, codes[i] as u128);
            proof {
                let t = codes@.take(i + 1);
                assert(t.drop_last() =~= codes@.take(i as int));
                assert(t.last() == codes@[i as int]);
                if i == 0 {
                    assert(out@ =~= sgr_open() + join_codes(t));
                } else {
                    assert(out@ =~= sgr_open() + join_codes(t));
                }
            }
        }
        proof {
            assert(codes@.take(n as int) =~= codes@);
        }
        push_char(&mut out, 'm');
        out.append(self.text.as_str());
        push_char(&mut out, '\x1b');
        push_char(&mut out, '[');
        push_char(&mut out, '0');
        push_char(&mut out, 'm');
        proof {
            assert(out@ =~= sgr_open() + join_codes(self@.sgr_codes()) + seq!['m'] + self@.text
                + sgr_reset());
        }
        out
    }
}

/// Wraps already formatted text in a `StyledString` for chainable styling.
///
/// For a value with a `Display` impl, pass its `to_string()`.
pub fn style(text: String) -> (s: StyledString)
    ensures
        s@ == StyledView::plain(text@),
{
    StyledString::plain(text)
}

} // verus!
