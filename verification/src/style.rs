//! Colours, styles and finished styled strings.

use vstd::prelude::*;

verus! {

/// A terminal colour, for the foreground or the background.
#[derive(Clone, Copy, Debug, PartialEq, Eq)]
pub enum Color {
    Black,
    Red,
    Green,
    Yellow,
    Blue,
    Purple,
    Cyan,
    White,
    /// One of the 256 colours of an extended palette.
    Fixed(u8),
    /// A 24-bit colour: red, green, blue.
    RGB(u8, u8, u8),
}

/// The colours and attributes that a run of text is shown with.
#[derive(Clone, Copy, Debug, PartialEq, Eq)]
pub struct TextStyle {
    pub foreground: Option<Color>,
    pub background: Option<Color>,
    pub is_bold: bool,
    pub is_dimmed: bool,
    pub is_italic: bool,
    pub is_underline: bool,
    pub is_blink: bool,
    pub is_reverse: bool,
    pub is_hidden: bool,
    pub is_strikethrough: bool,
}

impl TextStyle {
    /// The style with no colour and no attribute.
    pub open spec fn plain() -> TextStyle {
        TextStyle {
            foreground: None,
            background: None,
            is_bold: false,
            is_dimmed: false,
            is_italic: false,
            is_underline: false,
            is_blink: false,
            is_reverse: false,
            is_hidden: false,
            is_strikethrough: false,
        }
    }

    /// A style with nothing set.
    pub fn new() -> (style: TextStyle)
        ensures
            style == TextStyle::plain(),
    {
        TextStyle {
            foreground: None,
            background: None,
            is_bold: false,
            is_dimmed: false,
            is_italic: false,
            is_underline: false,
            is_blink: false,
            is_reverse: false,
            is_hidden: false,
            is_strikethrough: false,
        }
    }
}

/// A finished string: text together with the style it is shown with.
#[derive(Clone, Debug, PartialEq, Eq)]
pub struct StyledString {
    pub style: TextStyle,
    pub text: String,
}

/// The mathematical value of a [`StyledString`].
pub ghost struct StyledText {
    pub style: TextStyle,
    pub text: Seq<char>,
}

impl View for StyledString {
    type V = StyledText;

    open spec fn view(&self) -> StyledText {
        StyledText { style: self.style, text: self.text@ }
    }
}

/// The views of a sequence of finished strings, in order.
pub open spec fn styled_texts(strings: Seq<StyledString>) -> Seq<StyledText> {
    strings.map_values(|s: StyledString| s@)
}

/// What a terminal is sent for `text` in `style`: the escape sequence that
/// switches the style on, the text, and the sequence that resets the
/// terminal. Computed by `ansi_term`.
pub uninterp spec fn painted(style: TextStyle, text: Seq<char>) -> Seq<char>;

/// What a terminal is sent for a whole sequence of styled texts, with as few
/// escape sequences between neighbours as their styles allow. Computed by
/// `ansi_term`.
pub uninterp spec fn painted_all(parts: Seq<StyledText>) -> Seq<char>;

/// `ansi_term::Colour`, as a type whose values are only handed on.
#[verifier::external_type_specification]
#[verifier::external_body]
pub struct ExAnsiColour(ansi_term::Colour);

/// `ansi_term::Style`, as a type whose values are only handed on.
#[verifier::external_type_specification]
#[verifier::external_body]
pub struct ExAnsiStyle(ansi_term::Style);

/// The `ansi_term::Colour` with the same variant and the same numbers.
#[verifier::external_body]
fn ansi_colour(color: Color) -> ansi_term::Colour {
    match color {
        Color::Black => ansi_term::Colour::Black,
        Color::Red => ansi_term::Colour::Red,
        Color::Green => ansi_term::Colour::Green,
        Color::Yellow => ansi_term::Colour::Yellow,
        Color::Blue => ansi_term::Colour::Blue,
        Color::Purple => ansi_term::Colour::Purple,
        Color::Cyan => ansi_term::Colour::Cyan,
        Color::White => ansi_term::Colour::White,
        Color::Fixed(n) => ansi_term::Colour::Fixed(n),
        Color::RGB(r, g, b) => ansi_term::Colour::RGB(r, g, b),
    }
}

/// The `ansi_term::Style` with the same value in every field.
#[verifier::external_body]
fn ansi_style(style: TextStyle) -> ansi_term::Style {
    ansi_term::Style {
        foreground: style.foreground.map(ansi_colour),
        background: style.background.map(ansi_colour),
        is_bold: style.is_bold,
        is_dimmed: style.is_dimmed,
        is_italic: style.is_italic,
        is_underline: style.is_underline,
        is_blink: style.is_blink,
        is_reverse: style.is_reverse,
        is_hidden: style.is_hidden,
        is_strikethrough: style.is_strikethrough,
    }
}

/// `ansi_term::Style::paint` followed by `to_string` on the `ANSIString`
/// it gives. The result is a function of the style and the text alone; for
/// the plain style `ansi_term` writes the text and nothing else.
#[verifier::external_body]
pub(crate) fn paint(style: TextStyle, text: &str) -> (out: String)
    ensures
        out@ == painted(style, text@),
        style == TextStyle::plain() ==> out@ == text@,
{
    ansi_style(style).paint(text).to_string()
}

/// `ansi_term::ANSIStrings` over the strings in order, followed by
/// `to_string`. The result is a function of the styles and texts alone.
#[verifier::external_body]
pub(crate) fn paint_all(strings: &Vec<StyledString>) -> (out: String)
    ensures
        out@ == painted_all(styled_texts(strings@)),
{
    let parts: Vec<ansi_term::ANSIString> =
        strings.iter().map(|s| ansi_style(s.style).paint(s.text.as_str())).collect();
    ansi_term::ANSIStrings(&parts).to_string()
}

impl StyledString {
    /// The characters a terminal is sent for this string.
    pub fn to_string(&self) -> (out: String)
        ensures
            out@ == painted(self.style, self.text@),
            self.style == TextStyle::plain() ==> out@ == self.text@,
    {
        paint(self.style, self.text.as_str())
    }
}

} // verus!
