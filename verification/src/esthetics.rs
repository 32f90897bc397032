//! Terminal display attributes: the SGR display style and the eight
//! foreground colors, together with their numeric parameters.

use vstd::prelude::*;

verus! {

/// The display style of a piece of terminal text.
///
/// Each variant stands for one ANSI SGR display-attribute parameter;
/// [`style_code`] gives the numeric value (0 through 9).
#[derive(Clone, Copy, PartialEq, Eq, Structural, Debug)]
pub enum Style {
    Normal,
    Bold,
    Dimmed,
    Italic,
    Underline,
    BlinkSlow,
    BlinkFast,
    Reverse,
    Hidden,
    Strikethrough,
}

/// The foreground color of a piece of terminal text.
///
/// Each variant stands for one ANSI SGR foreground-color parameter;
/// [`color_code`] gives the numeric value (30 through 37).
#[derive(Clone, Copy, PartialEq, Eq, Structural, Debug)]
pub enum Color {
    Black,
    Red,
    Green,
    Yellow,
    Blue,
    Purple,
    Cyan,
    White,
}

/// The ANSI SGR display-attribute parameter of a style.
pub open spec fn style_code(s: Style) -> int {
    match s {
        Style::Normal => 0,
        Style::Bold => 1,
        Style::Dimmed => 2,
        Style::Italic => 3,
        Style::Underline => 4,
        Style::BlinkSlow => 5,
        Style::BlinkFast => 6,
        Style::Reverse => 7,
        Style::Hidden => 8,
        Style::Strikethrough => 9,
    }
}

/// The ANSI SGR foreground-color parameter of a color.
pub open spec fn color_code(c: Color) -> int {
    match c {
        Color::Black => 30,
        Color::Red => 31,
        Color::Green => 32,
        Color::Yellow => 33,
        Color::Blue => 34,
        Color::Purple => 35,
        Color::Cyan => 36,
        Color::White => 37,
    }
}

impl Style {
    /// The numeric SGR parameter of this style.
    pub fn code(&self) -> (r: u8)
        ensures
            r as int == style_code(*self),
    {
        match self {
            Style::Normal => 0u8,
            Style::Bold => 1u8,
            Style::Dimmed => 2u8,
            Style::Italic => 3u8,
            Style::Underline => 4u8,
            Style::BlinkSlow => 5u8,
            Style::BlinkFast => 6u8,
            Style::Reverse => 7u8,
            Style::Hidden => 8u8,
            Style::Strikethrough => 9u8,
        }
    }
}

impl Color {
    /// The numeric SGR parameter of this color.
    pub fn code(&self) -> (r: u8)
        ensures
            r as int == color_code(*self),
    {
        match self {
            Color::Black => 30u8,
            Color::Red => 31u8,
            Color::Green => 32u8,
            Color::Yellow => 33u8,
            Color::Blue => 34u8,
            Color::Purple => 35u8,
            Color::Cyan => 36u8,
            Color::White => 37u8,
        }
    }
}

impl Default for Style {
    /// The default style is `Normal`.
    fn default() -> (r: Self)
        ensures
            r == Style::Normal,
    {
        Style::Normal
    }
}

impl Default for Color {
    /// The default color is `White`.
    fn default() -> (r: Self)
        ensures
            r == Color::White,
    {
        Color::White
    }
}

} // verus!
