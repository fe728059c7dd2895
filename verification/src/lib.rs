//! Minimal terminal color and text styling: ANSI 16-color support (foreground
//! and background), common text styles, conditional styling and decorative
//! masking, with every rendering rule stated and proved.
//!
//! - `codes`: the colors and styles and their SGR codes;
//! - `text`: decimal and boolean text of primitive values;
//! - `styled`: styled strings, their model and how they render;
//! - `colorize`: the chainable `Colorize` trait and its impls;
//! - `settings`: the global enable/disable choice, the test override and auto-detection;
//! - `laws`: properties of the library as a whole;
//! - `text_laws`: what the decimal text of a number denotes;
//! - `code_laws`: the SGR codes follow the ANSI palette and numbering;
//! - `render_laws`: the shape of every rendered output, read back into its parameters;
//! - `colorize_laws`: what wrapping a value keeps and what each chaining step changes.

pub mod codes;
pub mod text;
pub mod styled;
pub mod colorize;
pub mod settings;
pub mod laws;
pub mod text_laws;
pub mod code_laws;
pub mod render_laws;
pub mod colorize_laws;

pub use codes::{Color, Style};
pub use colorize::Colorize;
pub use settings::{
    clear_colors_override, colors_enabled, detect_colors, disable, enable, set_colors_override,
    with_colors_override, ColorMode, ColorSettings,
};
pub use styled::{style, StyledString, StyledView};
