use vstd::prelude::*;

use crate::codes::{Color, Style};
use crate::settings::{ColorMode, ColorSettings};
use crate::styled::StyledView;

verus! {

/// `.whenever()` called several times: the last call wins.
pub proof fn lemma_whenever_last_write_wins(v: StyledView, a: bool, b: bool)
    ensures
        v.with_condition(a).with_condition(b) == v.with_condition(b),
{
    assert(v.with_condition(a).with_condition(b) =~= v.with_condition(b));
}

/// `.whenever(true)` renders exactly as a value on which `.whenever()` was never
/// called: it defers to the global state.
pub proof fn lemma_whenever_true_is_identity(v: StyledView, colors_enabled: bool)
    requires
        v.condition is None,
    ensures
        v.with_condition(true).rendered(colors_enabled) == v.rendered(colors_enabled),
{
}

/// `.whenever(false)` strips all ANSI codes whatever the global state: the plain
/// text is rendered, or nothing when the value is masked.
pub proof fn lemma_whenever_false_strips_ansi(v: StyledView, colors_enabled: bool)
    ensures
        v.with_condition(false).rendered(colors_enabled) == (if v.masked {
            Seq::<char>::empty()
        } else {
            v.text
        }),
{
}

/// A masked value renders exactly as the unmasked one while styling is active.
pub proof fn lemma_mask_with_active_styling_renders_normally(
    v: StyledView,
    colors_enabled: bool,
)
    requires
        v.styling_active(colors_enabled),
    ensures
        v.with_mask().rendered(colors_enabled) == v.rendered(colors_enabled),
{
}

/// A masked value renders as the empty string while styling is inactive
/// (colors disabled, or `.whenever(false)`).
pub proof fn lemma_mask_with_inactive_styling_renders_empty(
    v: StyledView,
    colors_enabled: bool,
)
    requires
        !v.styling_active(colors_enabled),
    ensures
        v.with_mask().rendered(colors_enabled) == Seq::<char>::empty(),
{
}

/// `.mask().whenever(false)` renders as the empty string whatever the global state.
pub proof fn lemma_mask_whenever_false_renders_empty(v: StyledView, colors_enabled: bool)
    ensures
        v.with_mask().with_condition(false).rendered(colors_enabled) == Seq::<char>::empty(),
{
}

/// A value with no color and no style renders as its plain text, with no escape
/// codes, whether colors are enabled or not.
pub proof fn lemma_unstyled_renders_plain(v: StyledView, colors_enabled: bool)
    requires
        v.unstyled(),
        !v.masked,
    ensures
        v.rendered(colors_enabled) == v.text,
{
}

/// Color methods and style methods chain in any order: setting a color and
/// appending a style commute.
pub proof fn lemma_colors_commute_with_styles(v: StyledView, fg: Color, bg: Color, s: Style)
    ensures
        v.with_fg(fg).with_style(s) == v.with_style(s).with_fg(fg),
        v.with_bg(bg).with_style(s) == v.with_style(s).with_bg(bg),
        v.with_fg(fg).with_bg(bg) == v.with_bg(bg).with_fg(fg),
{
    assert(v.with_fg(fg).with_style(s) =~= v.with_style(s).with_fg(fg));
    assert(v.with_bg(bg).with_style(s) =~= v.with_style(s).with_bg(bg));
    assert(v.with_fg(fg).with_bg(bg) =~= v.with_bg(bg).with_fg(fg));
}

/// `.whenever()` and `.mask()` chain in any order with the color and style methods.
pub proof fn lemma_condition_and_mask_commute(v: StyledView, c: bool, fg: Color, bg: Color, s: Style)
    ensures
        v.with_condition(c).with_fg(fg) == v.with_fg(fg).with_condition(c),
        v.with_condition(c).with_bg(bg) == v.with_bg(bg).with_condition(c),
        v.with_condition(c).with_style(s) == v.with_style(s).with_condition(c),
        v.with_mask().with_condition(c) == v.with_condition(c).with_mask(),
        v.with_mask().with_fg(fg) == v.with_fg(fg).with_mask(),
        v.with_mask().with_style(s) == v.with_style(s).with_mask(),
{
    assert(v.with_condition(c).with_fg(fg) =~= v.with_fg(fg).with_condition(c));
    assert(v.with_condition(c).with_bg(bg) =~= v.with_bg(bg).with_condition(c));
    assert(v.with_condition(c).with_style(s) =~= v.with_style(s).with_condition(c));
    assert(v.with_mask().with_condition(c) =~= v.with_condition(c).with_mask());
    assert(v.with_mask().with_fg(fg) =~= v.with_fg(fg).with_mask());
    assert(v.with_mask().with_style(s) =~= v.with_style(s).with_mask());
}

/// Setting a color twice: the last color wins.
pub proof fn lemma_last_color_wins(v: StyledView, a: Color, b: Color)
    ensures
        v.with_fg(a).with_fg(b) == v.with_fg(b),
        v.with_bg(a).with_bg(b) == v.with_bg(b),
{
    assert(v.with_fg(a).with_fg(b) =~= v.with_fg(b));
    assert(v.with_bg(a).with_bg(b) =~= v.with_bg(b));
}

/// Chaining accumulates styles: an appended style is present, and every style
/// present before stays present.
pub proof fn lemma_styles_accumulate(v: StyledView, s: Style, t: Style)
    ensures
        v.with_style(s).styles.contains(s),
        v.styles.contains(t) ==> v.with_style(s).styles.contains(t),
{
    assert(v.with_style(s).styles[v.styles.len() as int] == s);
    if v.styles.contains(t) {
        let i = choose|i: int| 0 <= i < v.styles.len() && v.styles[i] == t;
        assert(v.with_style(s).styles[i] == t);
    }
}

/// The order in which two styles are applied does not change which styles are
/// present, nor how many times each is.
pub proof fn lemma_style_order_independence(v: StyledView, a: Style, b: Style)
    ensures
        v.with_style(a).with_style(b).styles.to_multiset() == v.with_style(b).with_style(
            a,
        ).styles.to_multiset(),
{
    vstd::seq_lib::lemma_multiset_commutative(v.styles.push(a), seq![b]);
    vstd::seq_lib::lemma_multiset_commutative(v.styles.push(b), seq![a]);
    vstd::seq_lib::lemma_multiset_commutative(v.styles, seq![a]);
    vstd::seq_lib::lemma_multiset_commutative(v.styles, seq![b]);
    assert(v.styles.push(a).push(b) =~= v.styles.push(a) + seq![b]);
    assert(v.styles.push(b).push(a) =~= v.styles.push(b) + seq![a]);
    assert(v.styles.push(a) =~= v.styles + seq![a]);
    assert(v.styles.push(b) =~= v.styles + seq![b]);
    assert(seq![a].to_multiset() =~= vstd::multiset::Multiset::singleton(a)) by {
        broadcast use vstd::seq_lib::group_to_multiset_ensures;
        assert(seq![a] =~= Seq::<Style>::empty().push(a));
    }
    assert(seq![b].to_multiset() =~= vstd::multiset::Multiset::singleton(b)) by {
        broadcast use vstd::seq_lib::group_to_multiset_ensures;
        assert(seq![b] =~= Seq::<Style>::empty().push(b));
    }
}

/// After `enable()`, colors are on whatever the test override and auto-detection
/// say; after `disable()`, they are off.
pub proof fn lemma_enable_disable_decide(s: ColorSettings, detected: bool)
    ensures
        (ColorSettings { mode: ColorMode::ForceOn, ..s }).enabled_given(detected),
        !(ColorSettings { mode: ColorMode::ForceOff, ..s }).enabled_given(detected),
{
}

/// The test override decides when neither `enable()` nor `disable()` has, and
/// changes nothing when one has.
pub proof fn lemma_override_below_explicit_choice(s: ColorSettings, enabled: bool, detected: bool)
    ensures
        s.mode == ColorMode::Auto ==> s.with_override(enabled).enabled_given(detected) == enabled,
        s.mode != ColorMode::Auto ==> s.with_override(enabled).enabled_given(detected)
            == s.enabled_given(detected),
{
}

/// Clearing the test override hands the decision back to auto-detection, unless
/// `enable()` or `disable()` has decided.
pub proof fn lemma_clear_restores_detection(s: ColorSettings, detected: bool)
    ensures
        s.mode == ColorMode::Auto ==> s.without_override().enabled_given(detected) == detected,
{
}

} // verus!
