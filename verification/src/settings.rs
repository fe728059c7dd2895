use vstd::prelude::*;

verus! {

/// The global choice made by [`enable`] and [`disable`].
#[derive(Clone, Copy, Debug, PartialEq, Eq, Structural)]
pub enum ColorMode {
    /// No choice made: the test override, then auto-detection, decide.
    Auto,
    /// Colors forced on.
    ForceOn,
    /// Colors forced off.
    ForceOff,
}

/// The process-wide color state: the public enable/disable choice and the
/// test override that applies below it.
#[derive(Clone, Copy, Debug, PartialEq, Eq, Structural)]
pub struct ColorSettings {
    pub mode: ColorMode,
    pub test_override: Option<bool>,
}

impl ColorSettings {
    /// The decision made without auto-detection, if any: an explicit
    /// enable/disable first, then the test override.
    pub open spec fn explicit_choice(self) -> Option<bool> {
        match self.mode {
            ColorMode::ForceOn => Some(true),
            ColorMode::ForceOff => Some(false),
            ColorMode::Auto => self.test_override,
        }
    }

    /// Whether colors are enabled, given the result of auto-detection.
    pub open spec fn enabled_given(self, detected: bool) -> bool {
        match self.explicit_choice() {
            Some(b) => b,
            None => detected,
        }
    }

    /// The same settings with the test override set to `enabled`.
    pub open spec fn with_override(self, enabled: bool) -> ColorSettings {
        ColorSettings { test_override: Some(enabled), ..self }
    }

    /// The same settings with no test override.
    pub open spec fn without_override(self) -> ColorSettings {
        ColorSettings { test_override: None, ..self }
    }

    /// The state at process start: no explicit choice and no test override.
    pub fn new() -> (s: ColorSettings)
        ensures
            s.mode == ColorMode::Auto,
            s.test_override is None,
    {
        ColorSettings { mode: ColorMode::Auto, test_override: None }
    }

    /// The decision made without auto-detection, if any. When this is `None`,
    /// auto-detection decides.
    pub fn explicit(&self) -> (c: Option<bool>)
        ensures
            c == self.explicit_choice(),
    {
        match self.mode {
            ColorMode::ForceOn => Some(true),
            ColorMode::ForceOff => Some(false),
            ColorMode::Auto => self.test_override,
        }
    }
}

/// Globally enable ANSI color output, overriding auto-detection and the test override.
pub fn enable(settings: &mut ColorSettings)
    ensures
        *final(settings) == (ColorSettings { mode: ColorMode::ForceOn, ..*old(settings) }),
{
    settings.mode = ColorMode::ForceOn;
}

/// Globally disable ANSI color output, overriding auto-detection and the test override.
pub fn disable(settings: &mut ColorSettings)
    ensures
        *final(settings) == (ColorSettings { mode: ColorMode::ForceOff, ..*old(settings) }),
{
    settings.mode = ColorMode::ForceOff;
}

/// Force colors on or off for testing purposes. The override takes effect
/// only where neither [`enable`] nor [`disable`] has decided.
pub fn set_colors_override(settings: &mut ColorSettings, enabled: bool)
    ensures
        *final(settings) == old(settings).with_override(enabled),
{
    settings.test_override = Some(enabled);
}

/// Clear the test override so the real detection is used.
pub fn clear_colors_override(settings: &mut ColorSettings)
    ensures
        *final(settings) == old(settings).without_override(),
{
    settings.test_override = None;
}

/// Run `f` with the test override set to `enabled`, then clear the override.
///
/// `f` sees the settings with the override in place; what it returns is returned.
pub fn with_colors_override<R, F: FnOnce(&ColorSettings) -> R>(
    settings: &mut ColorSettings,
    enabled: bool,
    f: F,
) -> (r: R)
    requires
        f.requires((&old(settings).with_override(enabled),)),
    ensures
        f.ensures((&old(settings).with_override(enabled),), r),
        *final(settings) == old(settings).without_override(),
{
    set_colors_override(settings, enabled);
    let r = f(&*settings);
    clear_colors_override(settings);
    r
}

/// Returns whether ANSI color output is enabled: an explicit [`enable`] or
/// [`disable`] first, then the test override, then `detected`, the result of
/// auto-detection.
pub fn colors_enabled(settings: &ColorSettings, detected: bool) -> (on: bool)
    ensures
        on == settings.enabled_given(detected),
{
    match settings.explicit() {
        Some(b) => b,
        None => detected,
    }
}

/// The auto-detected color state: a non-empty `NO_COLOR` value disables colors,
/// otherwise colors are on exactly when stdout is a terminal.
pub fn detect_colors(no_color: Option<String>, stdout_is_tty: bool) -> (on: bool)
    ensures
        on == (match no_color {
            Some(v) => v@.len() == 0 && stdout_is_tty,
            None => stdout_is_tty,
        }),
{
    match no_color {
        Some(v) => {
            if v.as_str().is_empty() {
                stdout_is_tty
            } else {
                false
            }
        },
        None => stdout_is_tty,
    }
}

} // verus!
