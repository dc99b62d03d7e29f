//! The terminal styling the picker applies, done by owo-colors.

use vstd::prelude::*;
use owo_colors::{AnsiColors, OwoColorize};

verus! {

#[verifier::external_type_specification]
#[verifier::external_body]
pub struct ExAnsiColors(AnsiColors);

/// The color that owo-colors reads from a color name.
pub uninterp spec fn ansi_color_named(name: Seq<char>) -> AnsiColors;

/// The escape sequence that owo-colors writes to select a foreground color.
pub uninterp spec fn fg_escape(c: AnsiColors) -> Seq<char>;

/// The escape sequence that owo-colors writes to select a background color.
pub uninterp spec fn bg_escape(c: AnsiColors) -> Seq<char>;

/// The escape sequence that selects graphic rendition `code`.
pub open spec fn sgr(code: Seq<char>) -> Seq<char> {
    seq!['\x1b', '['] + code + seq!['m']
}

/// A text between the escape that turns an attribute on and the one that
/// resets all attributes.
pub open spec fn with_attribute(code: Seq<char>, s: Seq<char>) -> Seq<char> {
    sgr(code) + s + sgr(seq!['0'])
}

/// A text in the given foreground color, followed by the escape that
/// restores the default foreground.
pub open spec fn in_foreground(s: Seq<char>, c: AnsiColors) -> Seq<char> {
    fg_escape(c) + s + sgr(seq!['3', '9'])
}

/// A text on the given background color, followed by the escape that
/// restores the default background.
pub open spec fn on_background(s: Seq<char>, c: AnsiColors) -> Seq<char> {
    bg_escape(c) + s + sgr(seq!['4', '9'])
}

/// A text underlined.
pub open spec fn underlined(s: Seq<char>) -> Seq<char> {
    with_attribute(seq!['4'], s)
}

/// A text dimmed.
pub open spec fn dimmed(s: Seq<char>) -> Seq<char> {
    with_attribute(seq!['2'], s)
}

/// A text in italics.
pub open spec fn italic(s: Seq<char>) -> Seq<char> {
    with_attribute(seq!['3'], s)
}

/// A text in bold.
pub open spec fn bold(s: Seq<char>) -> Seq<char> {
    with_attribute(seq!['1'], s)
}

/// A text in cyan, followed by the escape that restores the default
/// foreground.
pub open spec fn cyan(s: Seq<char>) -> Seq<char> {
    sgr(seq!['3', '6']) + s + sgr(seq!['3', '9'])
}

/// Relies on `From<&str> for AnsiColors`: a fixed table from color names,
/// with white for any other name.
#[verifier::external_body]
pub fn color_from_name(name: &str) -> (r: AnsiColors)
    ensures
        r == ansi_color_named(name@),
{
    AnsiColors::from(name)
}

/// Relies on `OwoColorize::underline`, rendered to a string: the attribute's
/// escape, the text, then the reset escape.
#[verifier::external_body]
pub fn underline_text(s: &str) -> (r: String)
    ensures
        r@ == underlined(s@),
{
    s.underline().to_string()
}

/// Relies on `OwoColorize::color`, rendered to a string: the color's escape,
/// the text, then the escape for the default foreground.
#[verifier::external_body]
pub fn foreground_text(s: &str, c: AnsiColors) -> (r: String)
    ensures
        r@ == fg_escape(c) + s@ + sgr(seq!['3', '9']),
{
    s.color(c).to_string()
}

/// Relies on `OwoColorize::on_color`, rendered to a string: the color's
/// escape, the text, then the escape for the default background.
#[verifier::external_body]
pub fn background_text(s: &str, c: AnsiColors) -> (r: String)
    ensures
        r@ == bg_escape(c) + s@ + sgr(seq!['4', '9']),
{
    s.on_color(c).to_string()
}

/// Relies on `OwoColorize::dimmed`, rendered to a string: the attribute's
/// escape, the text, then the reset escape.
#[verifier::external_body]
pub fn dimmed_text(s: &str) -> (r: String)
    ensures
        r@ == dimmed(s@),
{
    s.dimmed().to_string()
}

/// Relies on `OwoColorize::italic`, rendered to a string: the attribute's
/// escape, the text, then the reset escape.
#[verifier::external_body]
pub fn italic_text(s: &str) -> (r: String)
    ensures
        r@ == italic(s@),
{
    s.italic().to_string()
}

/// Relies on `OwoColorize::bold`, rendered to a string: the attribute's
/// escape, the text, then the reset escape.
#[verifier::external_body]
pub fn bold_text(s: &str) -> (r: String)
    ensures
        r@ == bold(s@),
{
    s.bold().to_string()
}

/// Relies on `OwoColorize::cyan`, rendered to a string: the cyan escape,
/// the text, then the escape for the default foreground.
#[verifier::external_body]
pub fn cyan_text(s: &str) -> (r: String)
    ensures
        r@ == cyan(s@),
{
    s.cyan().to_string()
}

} // verus!
