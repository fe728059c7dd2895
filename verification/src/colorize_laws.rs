use vstd::prelude::*;

use crate::codes::{Color, Style};
use crate::colorize::Colorize;
use crate::settings::ColorSettings;
use crate::styled::{StyledString, StyledView};
use crate::text::int_text;

verus! {

/// A freshly wrapped value: the given text, and no color, style, condition or mask.
pub open spec fn fresh(v: StyledView, text: Seq<char>) -> bool {
    &&& v.text == text
    &&& v.fg is None
    &&& v.bg is None
    &&& v.styles.len() == 0
    &&& v.condition is None
    &&& !v.masked
}

/// Wrapping an integer of any type keeps its value: the text is the decimal text
/// of that same value, with `-` before a negative one.
pub proof fn lemma_signed_integers_keep_their_value(a: i8, b: i16, c: i32, d: i64, e: i128, f: isize)
    ensures
        fresh(a.styled_view(), int_text(a as int)),
        fresh(b.styled_view(), int_text(b as int)),
        fresh(c.styled_view(), int_text(c as int)),
        fresh(d.styled_view(), int_text(d as int)),
        fresh(e.styled_view(), int_text(e as int)),
        fresh(f.styled_view(), int_text(f as int)),
{
}

/// Wrapping an unsigned integer of any type keeps its value: the text is the
/// decimal text of that same value.
pub proof fn lemma_unsigned_integers_keep_their_value(a: u8, b: u16, c: u32, d: u64, e: u128, f: usize)
    ensures
        fresh(a.styled_view(), int_text(a as int)),
        fresh(b.styled_view(), int_text(b as int)),
        fresh(c.styled_view(), int_text(c as int)),
        fresh(d.styled_view(), int_text(d as int)),
        fresh(e.styled_view(), int_text(e as int)),
        fresh(f.styled_view(), int_text(f as int)),
{
}

/// Wrapping text keeps it; a boolean becomes `true` or `false`, a character
/// becomes itself.
pub proof fn lemma_text_values_keep_their_text(s: &str, t: String, b: bool, c: char)
    ensures
        fresh(s.styled_view(), s@),
        fresh(t.styled_view(), t@),
        fresh(b.styled_view(), if b { seq!['t', 'r', 'u', 'e'] } else { seq!['f', 'a', 'l', 's', 'e'] }),
        fresh(c.styled_view(), seq![c]),
{
}

/// The model of a styled string is its fields: its text's characters, its colors,
/// its style list, its condition and its mask.
pub proof fn lemma_model_reflects_fields(s: StyledString)
    ensures
        s@.text == s.text@,
        s@.fg == s.fg,
        s@.bg == s.bg,
        s@.styles == s.styles@,
        s@.condition == s.condition,
        s@.masked == s.masked,
{
}

/// Restyling a styled string changes nothing, so a chained method keeps every
/// color, style, condition and mask already set.
pub proof fn lemma_restyling_keeps_everything(s: StyledString)
    ensures
        s.styled_view() == s@,
{
}

/// Each chaining step changes one thing: a color method sets that color, a style
/// method appends that style after the ones already there, `whenever` sets the
/// condition and `mask` marks the value; everything else stays.
pub proof fn lemma_each_step_changes_one_thing(v: StyledView, c: Color, s: Style, b: bool)
    ensures
        v.with_fg(c).fg == Some(c) && v.with_fg(c).bg == v.bg && v.with_fg(c).styles == v.styles
            && v.with_fg(c).text == v.text && v.with_fg(c).condition == v.condition
            && v.with_fg(c).masked == v.masked,
        v.with_bg(c).bg == Some(c) && v.with_bg(c).fg == v.fg && v.with_bg(c).styles == v.styles
            && v.with_bg(c).text == v.text && v.with_bg(c).condition == v.condition
            && v.with_bg(c).masked == v.masked,
        v.with_style(s).styles.len() == v.styles.len() + 1 && v.with_style(s).styles[v.styles.len() as int] == s
            && v.with_style(s).styles.take(v.styles.len() as int) == v.styles
            && v.with_style(s).fg == v.fg && v.with_style(s).bg == v.bg
            && v.with_style(s).text == v.text && v.with_style(s).condition == v.condition
            && v.with_style(s).masked == v.masked,
        v.with_condition(b).condition == Some(b) && v.with_condition(b).fg == v.fg
            && v.with_condition(b).bg == v.bg && v.with_condition(b).styles == v.styles
            && v.with_condition(b).text == v.text && v.with_condition(b).masked == v.masked,
        v.with_mask().masked && v.with_mask().fg == v.fg && v.with_mask().bg == v.bg
            && v.with_mask().styles == v.styles && v.with_mask().text == v.text
            && v.with_mask().condition == v.condition,
{
    assert(v.with_style(s).styles.take(v.styles.len() as int) =~= v.styles);
}

/// Setting the test override keeps the enable/disable choice and records the
/// given value; clearing it keeps the choice and removes the override.
pub proof fn lemma_override_changes_only_the_override(s: ColorSettings, enabled: bool)
    ensures
        s.with_override(enabled).mode == s.mode,
        s.with_override(enabled).test_override == Some(enabled),
        s.without_override().mode == s.mode,
        s.without_override().test_override is None,
{
}

} // verus!
