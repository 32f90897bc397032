//! A lightweight library for displaying colored text on a UNIX environment
//! terminal.
//!
//! A [`ColoredText`] pairs a piece of text with a display [`esthetics::Style`]
//! and a foreground [`esthetics::Color`]; [`ColoredText::render`] turns the
//! triple into an ANSI escape-coded string ready to be written to a terminal.

use vstd::prelude::*;

pub mod esthetics;

use crate::esthetics::{Color, Style, color_code, style_code};

verus! {

/// The character a decimal digit is written with, for digits 0 through 9.
pub open spec fn digit_char(d: int) -> char {
    if d == 0 {
        '0'
    } else if d == 1 {
        '1'
    } else if d == 2 {
        '2'
    } else if d == 3 {
        '3'
    } else if d == 4 {
        '4'
    } else if d == 5 {
        '5'
    } else if d == 6 {
        '6'
    } else if d == 7 {
        '7'
    } else if d == 8 {
        '8'
    } else {
        '9'
    }
}

/// The decimal digits of a number below 100, most significant first,
/// without a leading zero.
pub open spec fn decimal_digits(n: int) -> Seq<char> {
    if n < 10 {
        seq![digit_char(n)]
    } else {
        seq![digit_char(n / 10), digit_char(n % 10)]
    }
}

/// The escape introducer `ESC [` that begins an SGR control sequence.
pub open spec fn escape_introducer() -> Seq<char> {
    seq!['\u{1b}', '[']
}

/// The reset sequence `ESC [ 0 m`, which clears all active SGR attributes.
pub open spec fn reset_sequence() -> Seq<char> {
    seq!['\u{1b}', '[', '0', 'm']
}

/// The rendering of a style, color and text as an ANSI escape-coded string:
/// `ESC [`, the style's code in decimal, `;`, the color's code in decimal,
/// `m`, the text verbatim, and the reset sequence `ESC [ 0 m`.
///
/// The text is emitted without any escaping or filtering: escape sequences
/// embedded in it pass through unmodified, by design.
pub open spec fn render_spec(s: Style, c: Color, t: Seq<char>) -> Seq<char> {
    escape_introducer() + decimal_digits(style_code(s)) + seq![';'] + decimal_digits(color_code(c))
        + seq!['m'] + t + reset_sequence()
}

/// A piece of text together with the style and color it is to be displayed in.
///
/// Once built, a value is read-only; the chaining methods return an updated
/// copy rather than mutating in place.
#[derive(Debug)]
pub struct ColoredText<'a> {
    pub text: &'a str,
    pub style: Style,
    pub color: Color,
}

/// The value that direct construction from a text, a style and a color yields.
pub open spec fn new_spec<'a>(text: &'a str, style: Style, color: Color) -> ColoredText<'a> {
    ColoredText { text, style, color }
}

/// The value that construction from text alone yields: the given text with
/// the default style and color.
pub open spec fn text_spec<'a>(text: &'a str) -> ColoredText<'a> {
    ColoredText { text, style: Style::Normal, color: Color::White }
}

/// The value obtained by replacing the style of an existing value.
pub open spec fn with_style_spec<'a>(ct: ColoredText<'a>, style: Style) -> ColoredText<'a> {
    ColoredText { text: ct.text, style, color: ct.color }
}

/// The value obtained by replacing the color of an existing value.
pub open spec fn with_color_spec<'a>(ct: ColoredText<'a>, color: Color) -> ColoredText<'a> {
    ColoredText { text: ct.text, style: ct.style, color }
}

/// The string a value renders as.
pub open spec fn rendered<'a>(ct: ColoredText<'a>) -> Seq<char> {
    render_spec(ct.style, ct.color, ct.text@)
}

impl<'a> ColoredText<'a> {
    /// Creates a new [`ColoredText`] with exactly the given text, style and
    /// color.
    pub fn new(text: &'a str, style: Style, color: Color) -> (r: ColoredText<'a>)
        ensures
            r == new_spec(text, style, color),
    {
        ColoredText { text, style, color }
    }

    /// Creates a new [`ColoredText`] object with the base text, displayed with
    /// the default style (`Normal`) and color (`White`).
    pub fn text(text: &'a str) -> (r: ColoredText<'a>)
        ensures
            r == text_spec(text),
    {
        ColoredText { text, style: Style::Normal, color: Color::White }
    }

    /// Creates a new [`ColoredText`] with the given text and color, displayed
    /// with the default style (`Normal`).
    pub fn with_color_only(text: &'a str, color: Color) -> (r: ColoredText<'a>)
        ensures
            r == new_spec(text, Style::Normal, color),
    {
        ColoredText { text, style: Style::Normal, color }
    }

    /// Creates a new [`ColoredText`] with the given text and style, displayed
    /// with the default color (`White`).
    pub fn with_style_only(text: &'a str, style: Style) -> (r: ColoredText<'a>)
        ensures
            r == new_spec(text, style, Color::White),
    {
        ColoredText { text, style, color: Color::White }
    }

    /// Creates a new [`ColoredText`] from an existing one, with a specific color.
    pub fn color(self, color: Color) -> (r: ColoredText<'a>)
        ensures
            r == with_color_spec(self, color),
    {
        ColoredText { text: self.text, style: self.style, color }
    }

    /// Creates a new [`ColoredText`] from an existing one, with a specific style.
    pub fn style(self, style: Style) -> (r: ColoredText<'a>)
        ensures
            r == with_style_spec(self, style),
    {
        ColoredText { text: self.text, style, color: self.color }
    }

    /// Renders this value as an ANSI escape-coded string:
    /// `"\x1b[{style_code};{color_code}m{text}\x1b[0m"`.
    ///
    /// The trailing reset sequence guarantees that content printed after this
    /// value does not inherit its style or color.  The text itself is emitted
    /// verbatim: escape sequences embedded in it are not sanitized away.
    pub fn render(&self) -> (r: String)
        ensures
            r@ == rendered(*self),
            r@ == render_spec(self.style, self.color, self.text@),
    {
        let mut out = "\x1b[".to_owned();
        out.append(style_digits(&self.style));
        out.append(";");
        out.append(color_digits(&self.color));
        out.append("m");
        out.append(self.text);
        out.append("\x1b[0m");
        proof {
            reveal_strlit("\x1b[");
            reveal_strlit(";");
            reveal_strlit("m");
            reveal_strlit("\x1b[0m");
            assert(out@ =~= render_spec(self.style, self.color, self.text@));
        }
        out
    }
}

/// The decimal digits of a style's SGR parameter, as a string slice.
fn style_digits(s: &Style) -> (r: &'static str)
    ensures
        r@ == decimal_digits(style_code(*s)),
{
    match s {
        Style::Normal => {
            proof {
                reveal_strlit("0");
                assert("0"@ =~= decimal_digits(0));
            }
            "0"
        },
        Style::Bold => {
            proof {
                reveal_strlit("1");
                assert("1"@ =~= decimal_digits(1));
            }
            "1"
        },
        Style::Dimmed => {
            proof {
                reveal_strlit("2");
                assert("2"@ =~= decimal_digits(2));
            }
            "2"
        },
        Style::Italic => {
            proof {
                reveal_strlit("3");
                assert("3"@ =~= decimal_digits(3));
            }
            "3"
        },
        Style::Underline => {
            proof {
                reveal_strlit("4");
                assert("4"@ =~= decimal_digits(4));
            }
            "4"
        },
        Style::BlinkSlow => {
            proof {
                reveal_strlit("5");
                assert("5"@ =~= decimal_digits(5));
            }
            "5"
        },
        Style::BlinkFast => {
            proof {
                reveal_strlit("6");
                assert("6"@ =~= decimal_digits(6));
            }
            "6"
        },
        Style::Reverse => {
            proof {
                reveal_strlit("7");
                assert("7"@ =~= decimal_digits(7));
            }
            "7"
        },
        Style::Hidden => {
            proof {
                reveal_strlit("8");
                assert("8"@ =~= decimal_digits(8));
            }
            "8"
        },
        Style::Strikethrough => {
            proof {
                reveal_strlit("9");
                assert("9"@ =~= decimal_digits(9));
            }
            "9"
        },
    }
}

/// The decimal digits of a color's SGR parameter, as a string slice.
fn color_digits(c: &Color) -> (r: &'static str)
    ensures
        r@ == decimal_digits(color_code(*c)),
{
    match c {
        Color::Black => {
            proof {
                reveal_strlit("30");
                assert("30"@ =~= decimal_digits(30));
            }
            "30"
        },
        Color::Red => {
            proof {
                reveal_strlit("31");
                assert("31"@ =~= decimal_digits(31));
            }
            "31"
        },
        Color::Green => {
            proof {
                reveal_strlit("32");
                assert("32"@ =~= decimal_digits(32));
            }
            "32"
        },
        Color::Yellow => {
            proof {
                reveal_strlit("33");
                assert("33"@ =~= decimal_digits(33));
            }
            "33"
        },
        Color::Blue => {
            proof {
                reveal_strlit("34");
                assert("34"@ =~= decimal_digits(34));
            }
            "34"
        },
        Color::Purple => {
            proof {
                reveal_strlit("35");
                assert("35"@ =~= decimal_digits(35));
            }
            "35"
        },
        Color::Cyan => {
            proof {
                reveal_strlit("36");
                assert("36"@ =~= decimal_digits(36));
            }
            "36"
        },
        Color::White => {
            proof {
                reveal_strlit("37");
                assert("37"@ =~= decimal_digits(37));
            }
            "37"
        },
    }
}

impl<'a> Default for ColoredText<'a> {
    /// The default value holds empty text with the default style (`Normal`)
    /// and color (`White`).
    fn default() -> (r: Self)
        ensures
            r.text@ == Seq::<char>::empty(),
            r.style == Style::Normal,
            r.color == Color::White,
    {
        proof {
            reveal_strlit("");
            assert(""@ =~= Seq::<char>::empty());
        }
        ColoredText { text: "", style: Style::Normal, color: Color::White }
    }
}

impl<'a> PartialEq for ColoredText<'a> {
    /// Two values are equal exactly when they hold the same text, style and
    /// color.
    fn eq(&self, other: &Self) -> (r: bool) {
        self.text.to_owned() == other.text.to_owned() && self.style == other.style
            && self.color == other.color
    }
}

impl<'a> Eq for ColoredText<'a> {

}

impl<'a> vstd::std_specs::cmp::PartialEqSpecImpl for ColoredText<'a> {
    open spec fn obeys_eq_spec() -> bool {
        true
    }

    open spec fn eq_spec(&self, other: &Self) -> bool {
        self.text@ == other.text@ && self.style == other.style && self.color == other.color
    }
}

/// Law: building from text alone renders identically to direct construction
/// with the default style (`Normal`) and color (`White`).
pub proof fn lemma_text_renders_as_defaults<'a>(t: &'a str)
    ensures
        rendered(text_spec(t)) == rendered(new_spec(t, Style::Normal, Color::White)),
{
}

/// Law: setting the style and then the color yields the same value, and so
/// the same rendering, as setting the color and then the style.
pub proof fn lemma_chaining_order_independent<'a>(ct: ColoredText<'a>, s: Style, c: Color)
    ensures
        with_color_spec(with_style_spec(ct, s), c) == with_style_spec(with_color_spec(ct, c), s),
        rendered(with_color_spec(with_style_spec(ct, s), c)) == rendered(
            with_style_spec(with_color_spec(ct, c), s),
        ),
{
}

/// Law: the color-only convenience constructor renders identically to direct
/// construction with the default style, and the style-only one to direct
/// construction with the default color.
pub proof fn lemma_convenience_constructors_equivalent<'a>(t: &'a str, s: Style, c: Color)
    ensures
        rendered(new_spec(t, Style::Normal, c)) == rendered(
            with_color_spec(text_spec(t), c),
        ),
        rendered(new_spec(t, s, Color::White)) == rendered(
            with_style_spec(text_spec(t), s),
        ),
{
}

} // verus!

