use nanocolor::{
    clear_colors_override, colors_enabled, enable, disable, style, with_colors_override, Color,
    ColorSettings, Colorize, Style, StyledString,
};

/// Renders `s` as it displays with the test override set to `enabled`.
fn shown(enabled: bool, s: &StyledString) -> String {
    let mut settings = ColorSettings::new();
    with_colors_override(&mut settings, enabled, |st: &ColorSettings| {
        s.render(colors_enabled(st, false))
    })
}

#[test]
fn test_foreground_colors() {
    let cases: Vec<(fn(&str) -> StyledString, Color)> = vec![
        (|s| s.black(), Color::Black),
        (|s| s.red(), Color::Red),
        (|s| s.green(), Color::Green),
        (|s| s.yellow(), Color::Yellow),
        (|s| s.blue(), Color::Blue),
        (|s| s.magenta(), Color::Magenta),
        (|s| s.cyan(), Color::Cyan),
        (|s| s.white(), Color::White),
        (|s| s.bright_black(), Color::BrightBlack),
        (|s| s.bright_red(), Color::BrightRed),
        (|s| s.bright_green(), Color::BrightGreen),
        (|s| s.bright_yellow(), Color::BrightYellow),
        (|s| s.bright_blue(), Color::BrightBlue),
        (|s| s.bright_magenta(), Color::BrightMagenta),
        (|s| s.bright_cyan(), Color::BrightCyan),
        (|s| s.bright_white(), Color::BrightWhite),
    ];
    for (method, expected_color) in cases {
        let styled = method("hi");
        assert_eq!(styled.fg, Some(expected_color));
        assert_eq!(styled.bg, None);
        assert!(styled.styles.is_empty());
    }
}

#[test]
fn test_background_colors() {
    let cases: Vec<(fn(&str) -> StyledString, Color)> = vec![
        (|s| s.on_black(), Color::Black),
        (|s| s.on_red(), Color::Red),
        (|s| s.on_green(), Color::Green),
        (|s| s.on_yellow(), Color::Yellow),
        (|s| s.on_blue(), Color::Blue),
        (|s| s.on_magenta(), Color::Magenta),
        (|s| s.on_cyan(), Color::Cyan),
        (|s| s.on_white(), Color::White),
        (|s| s.on_bright_black(), Color::BrightBlack),
        (|s| s.on_bright_red(), Color::BrightRed),
        (|s| s.on_bright_green(), Color::BrightGreen),
        (|s| s.on_bright_yellow(), Color::BrightYellow),
        (|s| s.on_bright_blue(), Color::BrightBlue),
        (|s| s.on_bright_magenta(), Color::BrightMagenta),
        (|s| s.on_bright_cyan(), Color::BrightCyan),
        (|s| s.on_bright_white(), Color::BrightWhite),
    ];
    for (method, expected_color) in cases {
        let styled = method("hi");
        assert_eq!(styled.fg, None);
        assert_eq!(styled.bg, Some(expected_color));
        assert!(styled.styles.is_empty());
    }
}

#[test]
fn test_style_methods() {
    let cases: Vec<(fn(&str) -> StyledString, Style)> = vec![
        (|s| s.bold(), Style::Bold),
        (|s| s.dim(), Style::Dim),
        (|s| s.italic(), Style::Italic),
        (|s| s.underline(), Style::Underline),
        (|s| s.blink(), Style::Blink),
        (|s| s.rapid_blink(), Style::RapidBlink),
        (|s| s.reverse(), Style::Reverse),
        (|s| s.hidden(), Style::Hidden),
        (|s| s.strikethrough(), Style::Strikethrough),
        (|s| s.overline(), Style::Overline),
    ];
    for (method, expected_style) in cases {
        let styled = method("hi");
        assert_eq!(styled.fg, None);
        assert_eq!(styled.bg, None);
        assert_eq!(styled.styles, vec![expected_style]);
    }
}

#[test]
fn test_chaining_order_independence() {
    let a = "hi".bold().italic();
    let b = "hi".italic().bold();
    assert!(a.styles.contains(&Style::Bold));
    assert!(a.styles.contains(&Style::Italic));
    assert!(b.styles.contains(&Style::Bold));
    assert!(b.styles.contains(&Style::Italic));
}

#[test]
fn test_string_impl() {
    let s = String::from("hello").red();
    assert_eq!(s.fg, Some(Color::Red));
    assert_eq!(&*s.text, "hello");
}

#[test]
fn test_display_colors_forced_on() {
    let mut settings = ColorSettings::new();
    with_colors_override(&mut settings, true, |st: &ColorSettings| {
        let s = "hello".red();
        let output = s.render(colors_enabled(st, false));
        assert_eq!(output, "\x1b[31mhello\x1b[0m");
    });
}

#[test]
fn test_display_colors_forced_off() {
    let mut settings = ColorSettings::new();
    with_colors_override(&mut settings, false, |st: &ColorSettings| {
        let s = "hello".red().bold();
        let output = s.render(colors_enabled(st, true));
        assert_eq!(output, "hello");
    });
}

#[test]
fn test_display_plain_styled_string() {
    let mut settings = ColorSettings::new();
    with_colors_override(&mut settings, true, |st: &ColorSettings| {
        let s = "plain".styled();
        let output = s.render(colors_enabled(st, false));
        assert_eq!(output, "plain");
    });
}

#[test]
fn test_display_empty_string() {
    let mut settings = ColorSettings::new();
    with_colors_override(&mut settings, true, |st: &ColorSettings| {
        let s = "".red();
        let output = s.render(colors_enabled(st, false));
        assert_eq!(output, "\x1b[31m\x1b[0m");
    });
}

#[test]
fn test_display_special_characters() {
    let mut settings = ColorSettings::new();
    with_colors_override(&mut settings, true, |st: &ColorSettings| {
        let s = "hello\nworld\ttab".green();
        let output = s.render(colors_enabled(st, false));
        assert_eq!(output, "\x1b[32mhello\nworld\ttab\x1b[0m");
    });
}

#[test]
fn test_display_combined_fg_bg_style() {
    let mut settings = ColorSettings::new();
    with_colors_override(&mut settings, true, |st: &ColorSettings| {
        let s = "hi".bold().red().on_blue();
        let output = s.render(colors_enabled(st, false));
        assert_eq!(output, "\x1b[1;31;44mhi\x1b[0m");
    });
}

#[test]
fn test_integer_red() {
    let s = 42.red();
    assert_eq!(&*s.text, "42");
    assert_eq!(s.fg, Some(Color::Red));
    assert_eq!(s.bg, None);
    assert!(s.styles.is_empty());
}

#[test]
fn test_float_green() {
    // Floating-point values are styled through their formatted text.
    let s = 3.14_f64.to_string().green();
    assert_eq!(&*s.text, "3.14");
    assert_eq!(s.fg, Some(Color::Green));
}

#[test]
fn test_bool_bold() {
    let s = true.bold();
    assert_eq!(&*s.text, "true");
    assert_eq!(s.styles, vec![Style::Bold]);
    assert_eq!(s.fg, None);
}

#[test]
fn test_char_cyan() {
    let s = 'x'.cyan();
    assert_eq!(&*s.text, "x");
    assert_eq!(s.fg, Some(Color::Cyan));
}

#[test]
fn test_style_helper_function() {
    let s = style(format!("ID-{}", 42)).red().bold();
    assert_eq!(&*s.text, "ID-42");
    assert_eq!(s.fg, Some(Color::Red));
    assert_eq!(s.styles, vec![Style::Bold]);
}

#[test]
fn test_primitive_chaining_matches_str() {
    let s = 99.red().on_blue().bold();
    assert_eq!(&*s.text, "99");
    assert_eq!(s.fg, Some(Color::Red));
    assert_eq!(s.bg, Some(Color::Blue));
    assert_eq!(s.styles, vec![Style::Bold]);
}

#[test]
fn test_str_still_works() {
    let s = "hello".red();
    assert_eq!(&*s.text, "hello");
    assert_eq!(s.fg, Some(Color::Red));

    let s2 = String::from("world").green();
    assert_eq!(&*s2.text, "world");
    assert_eq!(s2.fg, Some(Color::Green));
}

#[test]
fn test_whenever_false_with_colors_forced_on() {
    let output = shown(true, &"hello".red().whenever(false));
    assert_eq!(output, "hello");
}

#[test]
fn test_whenever_true_with_colors_forced_off() {
    let output = shown(false, &"hello".red().whenever(true));
    assert_eq!(output, "hello");
}

#[test]
fn test_whenever_false_before_color() {
    let output = shown(true, &"hi".styled().whenever(false).red());
    assert_eq!(output, "hi");
}

#[test]
fn test_whenever_true_after_color_with_colors_on() {
    let output = shown(true, &"hi".red().whenever(true));
    assert_eq!(output, "\x1b[31mhi\x1b[0m");
}

#[test]
fn test_whenever_last_write_wins() {
    let output = shown(true, &"hi".red().whenever(true).whenever(false));
    assert_eq!(output, "hi");
}

#[test]
fn test_mask_colors_off_renders_empty() {
    let output = shown(false, &"✓".green().mask());
    assert_eq!(output, "");
}

#[test]
fn test_mask_colors_on_renders_ansi() {
    let output = shown(true, &"✓".green().mask());
    assert_eq!(output, "\x1b[32m✓\x1b[0m");
}

#[test]
fn test_mask_whenever_false_renders_empty() {
    let output = shown(true, &"decorative".red().mask().whenever(false));
    assert_eq!(output, "");
}

#[test]
fn test_mask_whenever_true_colors_on_renders_normally() {
    let output = shown(true, &"decorative".red().mask().whenever(true));
    assert_eq!(output, "\x1b[31mdecorative\x1b[0m");
}

#[test]
fn test_enable_forces_colors_on() {
    let mut settings = ColorSettings::new();
    clear_colors_override(&mut settings);
    enable(&mut settings);
    let output = "hi".red().render(colors_enabled(&settings, false));
    assert_eq!(output, "\x1b[31mhi\x1b[0m");
}

#[test]
fn test_disable_forces_colors_off() {
    let mut settings = ColorSettings::new();
    clear_colors_override(&mut settings);
    disable(&mut settings);
    let output = "hi".red().render(colors_enabled(&settings, true));
    assert_eq!(output, "hi");
}
