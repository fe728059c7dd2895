use vstd::prelude::*;

use crate::codes::{spec_bg_code, spec_fg_code, spec_style_code};
use crate::styled::{join_codes, StyledView};
use crate::text::decimal;
use crate::text_laws::{all_digits, digits_value, lemma_decimal_denotes};

verus! {

/// Splits text at each `;`: the pieces between separators, in order.
pub open spec fn split_semis(s: Seq<char>) -> Seq<Seq<char>>
    decreases s.len(),
{
    if s.len() == 0 {
        seq![Seq::<char>::empty()]
    } else {
        let parts = split_semis(s.drop_last());
        if s.last() == ';' {
            parts.push(Seq::<char>::empty())
        } else {
            parts.update(parts.len() - 1, parts.last().push(s.last()))
        }
    }
}

/// No character is `;`.
pub open spec fn no_semis(s: Seq<char>) -> bool {
    forall|i: int| 0 <= i < s.len() ==> #[trigger] s[i] != ';'
}

proof fn lemma_split_after_semi(a: Seq<char>, b: Seq<char>)
    requires
        no_semis(b),
    ensures
        split_semis(a + seq![';'] + b) == split_semis(a).push(b),
    decreases b.len(),
{
    let s = a + seq![';'] + b;
    if b.len() == 0 {
        assert(s.drop_last() =~= a);
        assert(s.last() == ';');
        assert(b =~= Seq::<char>::empty());
    } else {
        let b1 = b.drop_last();
        assert(no_semis(b1)) by {
            assert forall|i: int| 0 <= i < b1.len() implies #[trigger] b1[i] != ';' by {
                assert(b1[i] == b[i]);
            }
        }
        lemma_split_after_semi(a, b1);
        assert(s.drop_last() =~= a + seq![';'] + b1);
        assert(s.last() == b.last());
        assert(b.last() != ';') by {
            assert(b.last() == b[b.len() - 1]);
        }
        assert(b1.push(b.last()) =~= b);
        assert(split_semis(a).push(b1).update(split_semis(a).len() as int, b1.push(b.last()))
            =~= split_semis(a).push(b));
    }
}

proof fn lemma_split_without_semis(b: Seq<char>)
    requires
        no_semis(b),
    ensures
        split_semis(b) == seq![b],
    decreases b.len(),
{
    if b.len() > 0 {
        let b1 = b.drop_last();
        assert(no_semis(b1)) by {
            assert forall|i: int| 0 <= i < b1.len() implies #[trigger] b1[i] != ';' by {
                assert(b1[i] == b[i]);
            }
        }
        lemma_split_without_semis(b1);
        assert(b.last() == b[b.len() - 1]);
        assert(b1.push(b.last()) =~= b);
        assert(seq![b1].update(0, b1.push(b.last())) =~= seq![b]);
    } else {
        assert(b =~= Seq::<char>::empty());
    }
}

proof fn lemma_decimal_no_semis(n: nat)
    ensures
        no_semis(decimal(n)),
{
    lemma_decimal_denotes(n);
    assert forall|i: int| 0 <= i < decimal(n).len() implies #[trigger] decimal(n)[i] != ';' by {
        assert(all_digits(decimal(n)));
        assert(crate::text_laws::is_digit(decimal(n)[i]));
    }
}

/// Codes joined by `;` split back into one run of digits per code, each run
/// denoting its code.
pub proof fn lemma_join_codes_splits_back(codes: Seq<u8>)
    requires
        codes.len() >= 1,
    ensures
        split_semis(join_codes(codes)).len() == codes.len(),
        forall|i: int|
            0 <= i < codes.len() ==> all_digits(#[trigger] split_semis(join_codes(codes))[i])
                && digits_value(split_semis(join_codes(codes))[i]) == codes[i] as int,
    decreases codes.len(),
{
    if codes.len() == 1 {
        lemma_decimal_no_semis(codes[0] as nat);
        lemma_decimal_denotes(codes[0] as nat);
        lemma_split_without_semis(decimal(codes[0] as nat));
    } else {
        let init = codes.drop_last();
        lemma_join_codes_splits_back(init);
        lemma_decimal_no_semis(codes.last() as nat);
        lemma_decimal_denotes(codes.last() as nat);
        lemma_split_after_semi(join_codes(init), decimal(codes.last() as nat));
        let parts = split_semis(join_codes(codes));
        assert forall|i: int| 0 <= i < codes.len() implies all_digits(#[trigger] parts[i])
            && digits_value(parts[i]) == codes[i] as int by {
            if i < init.len() {
                assert(parts[i] == split_semis(join_codes(init))[i]);
                assert(codes[i] == init[i]);
            } else {
                assert(parts[i] == decimal(codes.last() as nat));
            }
        }
    }
}

/// The number of SGR parameters a styled value carries: one per style, one for
/// a foreground color and one for a background color.
pub open spec fn parameter_count(v: StyledView) -> int {
    v.styles.len() + (if v.fg is Some { 1int } else { 0 }) + (if v.bg is Some { 1int } else { 0 })
}

/// The `i`-th SGR parameter a styled value must carry: the codes of its styles in
/// the order they were applied, then its foreground code, then its background code.
pub open spec fn expected_parameter(v: StyledView, i: int) -> int {
    if i < v.styles.len() {
        spec_style_code(v.styles[i]) as int
    } else if i == v.styles.len() && v.fg is Some {
        spec_fg_code(v.fg->0) as int
    } else {
        spec_bg_code(v.bg->0) as int
    }
}

/// How a styled value displays, case by case.
///
/// With styling inactive (a `false` condition, or colors disabled) it shows its
/// plain text, or nothing when masked. With styling active and nothing applied
/// it shows its plain text. With styling active and any style or color applied
/// it shows `ESC [`, then its parameters separated by `;` (each a run of decimal
/// digits: the style codes in order, then the foreground code, then the background
/// code), then `m`, the text, and `ESC [ 0 m`; in particular it is never the bare text.
pub proof fn lemma_render_shape(v: StyledView, colors_enabled: bool)
    ensures
        !(v.condition != Some(false) && colors_enabled) && v.masked ==> v.rendered(colors_enabled)
            == Seq::<char>::empty(),
        !(v.condition != Some(false) && colors_enabled) && !v.masked ==> v.rendered(colors_enabled)
            == v.text,
        (v.condition != Some(false) && colors_enabled) && parameter_count(v) == 0 ==> v.rendered(
            colors_enabled,
        ) == v.text,
        (v.condition != Some(false) && colors_enabled) && parameter_count(v) > 0 ==> ({
            let r = v.rendered(colors_enabled);
            let n = r.len() as int;
            let t = v.text.len() as int;
            let params = split_semis(r.subrange(2, n - 5 - t));
            &&& n >= t + 7
            &&& r != v.text
            &&& r.take(2) == seq!['\x1b', '[']
            &&& r[n - 5 - t] == 'm'
            &&& r.subrange(n - 4 - t, n - 4) == v.text
            &&& r.skip(n - 4) == seq!['\x1b', '[', '0', 'm']
            &&& params.len() == parameter_count(v)
            &&& forall|i: int|
                0 <= i < params.len() ==> all_digits(#[trigger] params[i]) && digits_value(
                    params[i],
                ) == expected_parameter(v, i)
        }),
{
    let active = v.condition != Some(false) && colors_enabled;
    let codes = v.sgr_codes();
    let style_codes = v.styles.map_values(|s: crate::codes::Style| spec_style_code(s));
    let fg_part: Seq<u8> = match v.fg {
        Some(c) => seq![spec_fg_code(c)],
        None => Seq::empty(),
    };
    let bg_part: Seq<u8> = match v.bg {
        Some(c) => seq![spec_bg_code(c)],
        None => Seq::empty(),
    };
    assert(codes == style_codes + fg_part + bg_part);
    assert(codes.len() == parameter_count(v));
    assert forall|i: int| 0 <= i < codes.len() implies #[trigger] codes[i] as int
        == expected_parameter(v, i) by {
        if i < v.styles.len() {
            assert(codes[i] == style_codes[i]);
        } else if i == v.styles.len() && v.fg is Some {
            assert(codes[i] == fg_part[0]);
        } else {
            assert(codes[i] == bg_part[i - v.styles.len() - fg_part.len()]);
        }
    }
    if active && parameter_count(v) > 0 {
        let p = join_codes(codes);
        let r = v.rendered(colors_enabled);
        let t = v.text.len() as int;
        assert(r == seq!['\x1b', '['] + p + seq!['m'] + v.text + seq!['\x1b', '[', '0', 'm']);
        let n = r.len() as int;
        assert(n == 2 + p.len() + 1 + t + 4);
        lemma_join_codes_splits_back(codes);
        assert(r.take(2) =~= seq!['\x1b', '[']);
        assert(r.subrange(2, n - 5 - t) =~= p);
        assert(r[n - 5 - t] == 'm');
        assert(r.subrange(n - 4 - t, n - 4) =~= v.text);
        assert(r.skip(n - 4) =~= seq!['\x1b', '[', '0', 'm']);
        assert(r.len() != v.text.len());
    }
}

} // verus!
