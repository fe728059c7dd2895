use nanocolor::text::{bool_string, char_string, signed_text, unsigned_text};
use nanocolor::{
    clear_colors_override, colors_enabled, detect_colors, disable, enable, set_colors_override,
    style, with_colors_override, Color, ColorMode, ColorSettings, Colorize, Style,
};

const ALL_COLORS: [Color; 16] = [
    Color::Black,
    Color::Red,
    Color::Green,
    Color::Yellow,
    Color::Blue,
    Color::Magenta,
    Color::Cyan,
    Color::White,
    Color::BrightBlack,
    Color::BrightRed,
    Color::BrightGreen,
    Color::BrightYellow,
    Color::BrightBlue,
    Color::BrightMagenta,
    Color::BrightCyan,
    Color::BrightWhite,
];

#[test]
fn color_codes_are_in_range_and_background_is_ten_above() {
    for c in ALL_COLORS {
        let fg = c.fg_code();
        assert!((30..=37).contains(&fg) || (90..=97).contains(&fg));
        assert_eq!(c.bg_code(), fg + 10);
    }
    assert_eq!(Color::Black.fg_code(), 30);
    assert_eq!(Color::White.fg_code(), 37);
    assert_eq!(Color::BrightBlack.fg_code(), 90);
    assert_eq!(Color::BrightWhite.bg_code(), 107);
}

#[test]
fn style_codes_are_exact() {
    let expected = [
        (Style::Bold, 1),
        (Style::Dim, 2),
        (Style::Italic, 3),
        (Style::Underline, 4),
        (Style::Blink, 5),
        (Style::RapidBlink, 6),
        (Style::Reverse, 7),
        (Style::Hidden, 8),
        (Style::Strikethrough, 9),
        (Style::Overline, 53),
    ];
    for (s, code) in expected {
        assert_eq!(s.code(), code);
    }
}

#[test]
fn integer_texts_are_decimal() {
    assert_eq!(unsigned_text(0), "0");
    assert_eq!(unsigned_text(1907), "1907");
    assert_eq!(unsigned_text(u128::MAX), u128::MAX.to_string());
    assert_eq!(signed_text(-7), "-7");
    assert_eq!(signed_text(i128::MIN), i128::MIN.to_string());
    assert_eq!(signed_text(i128::MAX), i128::MAX.to_string());
    assert_eq!(bool_string(false), "false");
    assert_eq!(char_string('é'), "é");
}

#[test]
fn primitives_keep_their_text() {
    assert_eq!(&*(-128i8).styled().text, "-128");
    assert_eq!(&*255u8.styled().text, "255");
    assert_eq!(&*i64::MIN.styled().text, i64::MIN.to_string());
    assert_eq!(&*usize::MAX.styled().text, usize::MAX.to_string());
    assert_eq!(&*(-1isize).red().text, "-1");
    assert_eq!(&*false.styled().text, "false");
    assert_eq!(&*'✓'.styled().text, "✓");
    assert_eq!(&*style(42.to_string()).text, 42.to_string());
}

#[test]
fn styled_string_restyled_keeps_everything() {
    let s = "x".red().on_green().bold().whenever(false).mask();
    let t = s.styled();
    assert_eq!(t.fg, Some(Color::Red));
    assert_eq!(t.bg, Some(Color::Green));
    assert_eq!(t.styles, vec![Style::Bold]);
    assert_eq!(t.condition, Some(false));
    assert!(t.masked);
    assert_eq!(&*t.text, "x");
}

#[test]
fn several_styles_and_colors_render_in_order() {
    let s = "t".italic().bold().bright_magenta().on_bright_cyan().overline();
    assert_eq!(s.render(true), "\x1b[3;1;53;95;106mt\x1b[0m");
    assert_eq!(s.render(false), "t");
    let bg_only = "b".on_black();
    assert_eq!(bg_only.render(true), "\x1b[40mb\x1b[0m");
}

#[test]
fn last_color_wins() {
    let s = "x".red().green().on_red().on_blue();
    assert_eq!(s.fg, Some(Color::Green));
    assert_eq!(s.bg, Some(Color::Blue));
    assert_eq!(s.render(true), "\x1b[32;44mx\x1b[0m");
}

#[test]
fn whenever_true_renders_as_without() {
    for on in [false, true] {
        assert_eq!("a".red().whenever(true).render(on), "a".red().render(on));
    }
}

#[test]
fn mask_depends_on_active_styling() {
    assert_eq!("m".styled().mask().render(true), "m");
    assert_eq!("m".styled().mask().render(false), "");
    assert_eq!("m".cyan().mask().whenever(false).render(true), "");
    assert_eq!("m".cyan().whenever(false).render(true), "m");
}

#[test]
fn enable_and_disable_beat_the_override() {
    let mut s = ColorSettings::new();
    enable(&mut s);
    set_colors_override(&mut s, false);
    assert!(colors_enabled(&s, false));
    disable(&mut s);
    set_colors_override(&mut s, true);
    assert!(!colors_enabled(&s, true));
    assert_eq!(s.mode, ColorMode::ForceOff);
}

#[test]
fn override_then_clear_returns_to_detection() {
    let mut s = ColorSettings::new();
    assert!(colors_enabled(&s, true));
    assert!(!colors_enabled(&s, false));
    set_colors_override(&mut s, false);
    assert!(!colors_enabled(&s, true));
    set_colors_override(&mut s, true);
    assert!(colors_enabled(&s, false));
    clear_colors_override(&mut s);
    assert_eq!(s.test_override, None);
    assert!(!colors_enabled(&s, false));
}

#[test]
fn with_colors_override_clears_and_returns() {
    let mut s = ColorSettings::new();
    set_colors_override(&mut s, false);
    let seen = with_colors_override(&mut s, true, |st: &ColorSettings| st.test_override);
    assert_eq!(seen, Some(true));
    assert_eq!(s.test_override, None);
    assert_eq!(s.mode, ColorMode::Auto);
}

#[test]
fn no_color_detection() {
    assert!(!detect_colors(Some("1".to_string()), true));
    assert!(detect_colors(Some(String::new()), true));
    assert!(!detect_colors(Some(String::new()), false));
    assert!(detect_colors(None, true));
    assert!(!detect_colors(None, false));
}
