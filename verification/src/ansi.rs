//! The library's model of a terminal text style, the declarations that let
//! verified code read `nu_ansi_term`'s style values directly, and the trusted
//! painting call that wraps a string in the style's escape codes.

use vstd::prelude::*;

verus! {

/// The colors a style may carry: the sixteen named terminal colors, a
/// 256-color palette index, a 24-bit RGB triple, or the terminal's default.
/// This mirrors `nu_ansi_term::Color` variant for variant.
pub ghost enum ColorSpec {
    Black,
    DarkGray,
    Red,
    LightRed,
    Green,
    LightGreen,
    Yellow,
    LightYellow,
    Blue,
    LightBlue,
    Purple,
    LightPurple,
    Magenta,
    LightMagenta,
    Cyan,
    LightCyan,
    White,
    LightGray,
    Fixed(u8),
    Rgb(u8, u8, u8),
    DefaultColor,
}

/// The mathematical model of a style: optional foreground and background
/// colors and the boolean text attributes, mirroring `nu_ansi_term::Style`
/// field for field.
pub ghost struct StyleSpec {
    pub fg: Option<ColorSpec>,
    pub bg: Option<ColorSpec>,
    pub bold: bool,
    pub dimmed: bool,
    pub italic: bool,
    pub underline: bool,
    pub blink: bool,
    pub reverse: bool,
    pub hidden: bool,
    pub strikethrough: bool,
    pub prefix_with_reset: bool,
}

/// `nu_ansi_term::Color`, declared with its variants visible, so that
/// verified code can build and inspect colors directly.
#[verifier::external_type_specification]
pub struct ExAnsiColor(nu_ansi_term::Color);

/// `nu_ansi_term::Style`, declared with its fields visible, so that verified
/// code can build and inspect styles directly.
#[verifier::external_type_specification]
pub struct ExAnsiStyle(nu_ansi_term::Style);

/// The model value of a `nu_ansi_term::Color`.
pub open spec fn color_view(c: nu_ansi_term::Color) -> ColorSpec {
    match c {
        nu_ansi_term::Color::Black => ColorSpec::Black,
        nu_ansi_term::Color::DarkGray => ColorSpec::DarkGray,
        nu_ansi_term::Color::Red => ColorSpec::Red,
        nu_ansi_term::Color::LightRed => ColorSpec::LightRed,
        nu_ansi_term::Color::Green => ColorSpec::Green,
        nu_ansi_term::Color::LightGreen => ColorSpec::LightGreen,
        nu_ansi_term::Color::Yellow => ColorSpec::Yellow,
        nu_ansi_term::Color::LightYellow => ColorSpec::LightYellow,
        nu_ansi_term::Color::Blue => ColorSpec::Blue,
        nu_ansi_term::Color::LightBlue => ColorSpec::LightBlue,
        nu_ansi_term::Color::Purple => ColorSpec::Purple,
        nu_ansi_term::Color::LightPurple => ColorSpec::LightPurple,
        nu_ansi_term::Color::Magenta => ColorSpec::Magenta,
        nu_ansi_term::Color::LightMagenta => ColorSpec::LightMagenta,
        nu_ansi_term::Color::Cyan => ColorSpec::Cyan,
        nu_ansi_term::Color::LightCyan => ColorSpec::LightCyan,
        nu_ansi_term::Color::White => ColorSpec::White,
        nu_ansi_term::Color::LightGray => ColorSpec::LightGray,
        nu_ansi_term::Color::Fixed(n) => ColorSpec::Fixed(n),
        nu_ansi_term::Color::Rgb(r, g, b) => ColorSpec::Rgb(r, g, b),
        nu_ansi_term::Color::Default => ColorSpec::DefaultColor,
    }
}

/// The model value of a `nu_ansi_term::Style`.
pub open spec fn style_view(s: nu_ansi_term::Style) -> StyleSpec {
    StyleSpec {
        fg: match s.foreground {
            Some(c) => Some(color_view(c)),
            None => None,
        },
        bg: match s.background {
            Some(c) => Some(color_view(c)),
            None => None,
        },
        bold: s.is_bold,
        dimmed: s.is_dimmed,
        italic: s.is_italic,
        underline: s.is_underline,
        blink: s.is_blink,
        reverse: s.is_reverse,
        hidden: s.is_hidden,
        strikethrough: s.is_strikethrough,
        prefix_with_reset: s.prefix_with_reset,
    }
}

/// The style with no colors and no attributes: painting with it leaves the
/// text untouched, and describing it yields a record with every field empty.
pub open spec fn plain_spec() -> StyleSpec {
    StyleSpec {
        fg: None,
        bg: None,
        bold: false,
        dimmed: false,
        italic: false,
        underline: false,
        blink: false,
        reverse: false,
        hidden: false,
        strikethrough: false,
        prefix_with_reset: false,
    }
}

impl StyleSpec {
    /// A style is plain when every one of its fields is unset.
    pub open spec fn is_plain(self) -> bool {
        self == plain_spec()
    }
}

/// Build the plain style as an executable value.
pub fn plain_style() -> (r: nu_ansi_term::Style)
    ensures
        style_view(r) == plain_spec(),
{
    nu_ansi_term::Style {
        foreground: None,
        background: None,
        is_bold: false,
        is_dimmed: false,
        is_italic: false,
        is_underline: false,
        is_blink: false,
        is_reverse: false,
        is_hidden: false,
        is_strikethrough: false,
        prefix_with_reset: false,
    }
}

/// The escape sequence that returns the terminal to the default style.
pub open spec fn reset_seq() -> Seq<char> {
    seq!['\u{1b}', '[', '0', 'm']
}

/// The SGR escape prefix a style paints before its text: the characters that
/// `nu_ansi_term` writes for a non-plain style, a function of the style alone.
pub uninterp spec fn sgr_prefix(s: StyleSpec) -> Seq<char>;

/// What painting a text with a style produces: the text itself for the plain
/// style, and otherwise the style's escape prefix, the text, then the reset
/// sequence.
pub open spec fn painted(s: StyleSpec, text: Seq<char>) -> Seq<char> {
    if s.is_plain() {
        text
    } else {
        sgr_prefix(s) + text + reset_seq()
    }
}

/// Painting with the plain style is the identity: a path that no rule styles
/// comes back as the very text that went in, with no escape codes around it.
pub proof fn lemma_plain_paint_identity(text: Seq<char>)
    ensures
        painted(plain_spec(), text) == text,
{
}

/// Relies on `nu_ansi_term::Style::paint` and the `Display` of the string it
/// returns: a plain style writes no codes at all, and any other style writes
/// its SGR prefix, then the text, then the reset sequence `ESC [ 0 m`.
#[verifier::external_body]
pub fn paint_text(style: nu_ansi_term::Style, text: &str) -> (r: String)
    ensures
        style_view(style).is_plain() ==> r@ == text@,
        !style_view(style).is_plain() ==> r@ == sgr_prefix(style_view(style)) + text@ + reset_seq(),
        r@ == painted(style_view(style), text@),
{
    style.paint(text).to_string()
}

} // verus!
