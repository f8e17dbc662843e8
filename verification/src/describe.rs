//! Describe a style as a structured record: a foreground color name, a
//! background color name, and a string of attribute letters, each field
//! absent when the style leaves it unset.

use vstd::prelude::*;
use vstd::string::StringExecFns;

use crate::ansi::{color_view, plain_spec, style_view, ColorSpec, StyleSpec};

verus! {

/// The structured description of a style. All three fields are always
/// present; a field holds `None` when the style sets nothing for it.
#[derive(Debug, PartialEq, Eq)]
pub struct StyleRecord {
    pub fg: Option<String>,
    pub bg: Option<String>,
    pub attr: Option<String>,
}

/// The model of a style record: the three fields as character sequences.
pub ghost struct RecordSpec {
    pub fg: Option<Seq<char>>,
    pub bg: Option<Seq<char>>,
    pub attr: Option<Seq<char>>,
}

impl View for StyleRecord {
    type V = RecordSpec;

    open spec fn view(&self) -> RecordSpec {
        RecordSpec {
            fg: match self.fg {
                Some(s) => Some(s@),
                None => None,
            },
            bg: match self.bg {
                Some(s) => Some(s@),
                None => None,
            },
            attr: match self.attr {
                Some(s) => Some(s@),
                None => None,
            },
        }
    }
}

/// The decimal digit characters.
pub open spec fn dec_digit(d: nat) -> char {
    if d == 0 {
        '0'
    } else if d == 1 {
        '1'
    } else if d == 2 {
        '2'
    } else if d == 3 {
        '3'
    } else if d == 4 {
        '4'
    } else if d == 5 {
        '5'
    } else if d == 6 {
        '6'
    } else if d == 7 {
        '7'
    } else if d == 8 {
        '8'
    } else {
        '9'
    }
}

/// The decimal writing of a number, most significant digit first.
pub open spec fn decimal_seq(n: nat) -> Seq<char>
    decreases n,
{
    if n < 10 {
        seq![dec_digit(n)]
    } else {
        decimal_seq(n / 10).push(dec_digit(n % 10))
    }
}

/// The lower-case hexadecimal digit characters.
pub open spec fn hex_digit(d: nat) -> char {
    if d < 10 {
        dec_digit(d)
    } else if d == 10 {
        'a'
    } else if d == 11 {
        'b'
    } else if d == 12 {
        'c'
    } else if d == 13 {
        'd'
    } else if d == 14 {
        'e'
    } else {
        'f'
    }
}

/// A byte as two lower-case hexadecimal digits.
pub open spec fn hex_byte(b: nat) -> Seq<char> {
    seq![hex_digit(b / 16), hex_digit(b % 16)]
}

/// The name under which a color is described: the named terminal colors in
/// lower case, a palette index as `fixed_` and its decimal number, an RGB
/// triple as `#` and six hexadecimal digits, and the terminal's own color as
/// `default`.
pub open spec fn color_name(c: ColorSpec) -> Seq<char> {
    match c {
        ColorSpec::Black => "black"@,
        ColorSpec::DarkGray => "dark_gray"@,
        ColorSpec::Red => "red"@,
        ColorSpec::LightRed => "light_red"@,
        ColorSpec::Green => "green"@,
        ColorSpec::LightGreen => "light_green"@,
        ColorSpec::Yellow => "yellow"@,
        ColorSpec::LightYellow => "light_yellow"@,
        ColorSpec::Blue => "blue"@,
        ColorSpec::LightBlue => "light_blue"@,
        ColorSpec::Purple => "purple"@,
        ColorSpec::LightPurple => "light_purple"@,
        ColorSpec::Magenta => "magenta"@,
        ColorSpec::LightMagenta => "light_magenta"@,
        ColorSpec::Cyan => "cyan"@,
        ColorSpec::LightCyan => "light_cyan"@,
        ColorSpec::White => "white"@,
        ColorSpec::LightGray => "light_gray"@,
        ColorSpec::Fixed(n) => "fixed_"@ + decimal_seq(n as nat),
        ColorSpec::Rgb(r, g, b) => seq!['#'] + hex_byte(r as nat) + hex_byte(g as nat) + hex_byte(
            b as nat,
        ),
        ColorSpec::DefaultColor => "default"@,
    }
}

/// The attribute letters of a style, one letter per set attribute, in the
/// fixed order bold, dimmed, italic, underline, blink, reverse, hidden,
/// strikethrough.
pub open spec fn attr_seq(s: StyleSpec) -> Seq<char> {
    (if s.bold {
        seq!['b']
    } else {
        Seq::<char>::empty()
    }) + (if s.dimmed {
        seq!['d']
    } else {
        Seq::<char>::empty()
    }) + (if s.italic {
        seq!['i']
    } else {
        Seq::<char>::empty()
    }) + (if s.underline {
        seq!['u']
    } else {
        Seq::<char>::empty()
    }) + (if s.blink {
        seq!['l']
    } else {
        Seq::<char>::empty()
    }) + (if s.reverse {
        seq!['r']
    } else {
        Seq::<char>::empty()
    }) + (if s.hidden {
        seq!['h']
    } else {
        Seq::<char>::empty()
    }) + (if s.strikethrough {
        seq!['s']
    } else {
        Seq::<char>::empty()
    })
}

/// The record that describes a style: the color names of its foreground and
/// background and its attribute letters, each `None` where the style sets
/// nothing.
pub open spec fn record_of(s: StyleSpec) -> RecordSpec {
    RecordSpec {
        fg: match s.fg {
            Some(c) => Some(color_name(c)),
            None => None,
        },
        bg: match s.bg {
            Some(c) => Some(color_name(c)),
            None => None,
        },
        attr: if attr_seq(s).len() == 0 {
            None
        } else {
            Some(attr_seq(s))
        },
    }
}

fn dec_digit_str(d: u8) -> (r: &'static str)
    requires
        d < 10,
    ensures
        r@ == seq![dec_digit(d as nat)],
{
    let r: &'static str = match d {
        0 => "0",
        1 => "1",
        2 => "2",
        3 => "3",
        4 => "4",
        5 => "5",
        6 => "6",
        7 => "7",
        8 => "8",
        _ => "9",
    };
    proof {
        reveal_strlit("0");
        reveal_strlit("1");
        reveal_strlit("2");
        reveal_strlit("3");
        reveal_strlit("4");
        reveal_strlit("5");
        reveal_strlit("6");
        reveal_strlit("7");
        reveal_strlit("8");
        reveal_strlit("9");
        assert(r@ =~= seq![dec_digit(d as nat)]);
    }
    r
}

fn hex_digit_str(d: u8) -> (r: &'static str)
    requires
        d < 16,
    ensures
        r@ == seq![hex_digit(d as nat)],
{
    if d < 10 {
        dec_digit_str(d)
    } else {
        let r: &'static str = match d {
            10 => "a",
            11 => "b",
            12 => "c",
            13 => "d",
            14 => "e",
            _ => "f",
        };
        proof {
            reveal_strlit("a");
            reveal_strlit("b");
            reveal_strlit("c");
            reveal_strlit("d");
            reveal_strlit("e");
            reveal_strlit("f");
            assert(r@ =~= seq![hex_digit(d as nat)]);
        }
        r
    }
}

/// Write a number in decimal.
fn decimal_u8(n: u8) -> (r: String)
    ensures
        r@ == decimal_seq(n as nat),
    decreases n,
{
    if n < 10 {
        String::from_str(dec_digit_str(n))
    } else {
        let r = decimal_u8(n / 10).concat(dec_digit_str(n % 10));
        proof {
            assert(r@ =~= decimal_seq(n as nat));
        }
        r
    }
}

/// Write a byte as two hexadecimal digits.
fn hex_u8(b: u8) -> (r: String)
    ensures
        r@ == hex_byte(b as nat),
{
    let r = String::from_str(hex_digit_str(b / 16)).concat(hex_digit_str(b % 16));
    proof {
        assert(r@ =~= hex_byte(b as nat));
    }
    r
}

/// The name under which a color is described.
pub fn color_name_string(c: nu_ansi_term::Color) -> (r: String)
    ensures
        r@ == color_name(color_view(c)),
{
    match c {
        nu_ansi_term::Color::Black => String::from_str("black"),
        nu_ansi_term::Color::DarkGray => String::from_str("dark_gray"),
        nu_ansi_term::Color::Red => String::from_str("red"),
        nu_ansi_term::Color::LightRed => String::from_str("light_red"),
        nu_ansi_term::Color::Green => String::from_str("green"),
        nu_ansi_term::Color::LightGreen => String::from_str("light_green"),
        nu_ansi_term::Color::Yellow => String::from_str("yellow"),
        nu_ansi_term::Color::LightYellow => String::from_str("light_yellow"),
        nu_ansi_term::Color::Blue => String::from_str("blue"),
        nu_ansi_term::Color::LightBlue => String::from_str("light_blue"),
        nu_ansi_term::Color::Purple => String::from_str("purple"),
        nu_ansi_term::Color::LightPurple => String::from_str("light_purple"),
        nu_ansi_term::Color::Magenta => String::from_str("magenta"),
        nu_ansi_term::Color::LightMagenta => String::from_str("light_magenta"),
        nu_ansi_term::Color::Cyan => String::from_str("cyan"),
        nu_ansi_term::Color::LightCyan => String::from_str("light_cyan"),
        nu_ansi_term::Color::White => String::from_str("white"),
        nu_ansi_term::Color::LightGray => String::from_str("light_gray"),
        nu_ansi_term::Color::Fixed(n) => {
            let r = String::from_str("fixed_").concat(decimal_u8(n).as_str());
            proof {
                assert(r@ =~= color_name(color_view(c)));
            }
            r
        },
        nu_ansi_term::Color::Rgb(red, green, blue) => {
            let r = String::from_str("#").concat(hex_u8(red).as_str()).concat(
                hex_u8(green).as_str(),
            ).concat(hex_u8(blue).as_str());
            proof {
                reveal_strlit("#");
                assert(r@ =~= color_name(color_view(c)));
            }
            r
        },
        nu_ansi_term::Color::Default => String::from_str("default"),
    }
}

/// One attribute letter when the attribute is set, nothing otherwise.
pub open spec fn attr_letter(set: bool, letter: char) -> Seq<char> {
    if set {
        seq![letter]
    } else {
        Seq::<char>::empty()
    }
}

fn push_attr_letter(letters: &mut String, set: bool, letter: &str, any: &mut bool)
    requires
        letter@.len() == 1,
    ensures
        final(letters)@ == old(letters)@ + attr_letter(set, letter@[0]),
        *final(any) == (*old(any) || set),
{
    if set {
        letters.append(letter);
        *any = true;
    }
    proof {
        assert(letters@ =~= old(letters)@ + attr_letter(set, letter@[0]));
    }
}

/// The attribute letters of a style, `None` when it sets no attribute.
pub fn attr_string(style: &nu_ansi_term::Style) -> (r: Option<String>)
    ensures
        match r {
            Some(s) => s@ == attr_seq(style_view(*style)) && attr_seq(style_view(*style)).len()
                != 0,
            None => attr_seq(style_view(*style)).len() == 0,
        },
{
    proof {
        reveal_strlit("b");
        reveal_strlit("d");
        reveal_strlit("i");
        reveal_strlit("u");
        reveal_strlit("l");
        reveal_strlit("r");
        reveal_strlit("h");
        reveal_strlit("s");
    }
    let ghost sv = style_view(*style);
    let mut letters = String::new();
    let mut any: bool = false;
    push_attr_letter(&mut letters, style.is_bold, "b", &mut any);
    push_attr_letter(&mut letters, style.is_dimmed, "d", &mut any);
    push_attr_letter(&mut letters, style.is_italic, "i", &mut any);
    push_attr_letter(&mut letters, style.is_underline, "u", &mut any);
    push_attr_letter(&mut letters, style.is_blink, "l", &mut any);
    push_attr_letter(&mut letters, style.is_reverse, "r", &mut any);
    push_attr_letter(&mut letters, style.is_hidden, "h", &mut any);
    push_attr_letter(&mut letters, style.is_strikethrough, "s", &mut any);
    proof {
        assert(letters@ == attr_seq(sv));
        assert(any == (attr_seq(sv).len() != 0));
    }
    if any {
        Some(letters)
    } else {
        None
    }
}

/// Describe a style as a record of its foreground color name, background
/// color name and attribute letters. The three fields are present in every
/// record; each is `None` exactly when the style sets nothing for it.
pub fn ansi_style_to_record(style: nu_ansi_term::Style) -> (r: StyleRecord)
    ensures
        r@ == record_of(style_view(style)),
{
    let fg = match style.foreground {
        Some(c) => Some(color_name_string(c)),
        None => None,
    };
    let bg = match style.background {
        Some(c) => Some(color_name_string(c)),
        None => None,
    };
    let attr = attr_string(&style);
    StyleRecord { fg, bg, attr }
}

/// Describing the plain style yields the record whose three fields are all
/// absent.
pub proof fn lemma_plain_record_empty()
    ensures
        record_of(plain_spec()) == (RecordSpec { fg: None, bg: None, attr: None }),
{
    assert(attr_seq(plain_spec()) =~= Seq::<char>::empty());
}

/// Describing is a function of the style alone: two descriptions of one style
/// are structurally identical records. In particular, describing the plain
/// default style twice yields identical records.
pub proof fn lemma_describe_deterministic(s: StyleSpec, a: RecordSpec, b: RecordSpec)
    requires
        a == record_of(s),
        b == record_of(s),
    ensures
        a == b,
{
}

} // verus!
