//! Bold type and colours for a terminal, by way of `colored`.

use colored::Colorize;
use vstd::prelude::*;

verus! {

/// The foreground colours in which a strength level is shown.
#[derive(Clone, Copy, Debug, PartialEq, Eq, Structural)]
pub enum Color {
    Red,
    BrightRed,
    Yellow,
    BrightGreen,
    Green,
}

/// The escape character that opens a terminal control sequence.
pub open spec fn escape() -> char {
    '\x1b'
}

/// The digits by which a terminal selects a foreground colour.
pub open spec fn color_code(color: Color) -> Seq<char> {
    match color {
        Color::Red => seq!['3', '1'],
        Color::BrightRed => seq!['9', '1'],
        Color::Yellow => seq!['3', '3'],
        Color::BrightGreen => seq!['9', '2'],
        Color::Green => seq!['3', '2'],
    }
}

/// The digit by which a terminal selects bold type.
pub open spec fn bold_code() -> Seq<char> {
    seq!['1']
}

/// The control sequence that selects the rendition `code`.
pub open spec fn select_rendition(code: Seq<char>) -> Seq<char> {
    seq![escape(), '['] + code + seq!['m']
}

/// `text` between the sequence that selects `code` and the one that resets it.
pub open spec fn wrapped(code: Seq<char>, text: Seq<char>) -> Seq<char> {
    select_rendition(code) + text + select_rendition(seq!['0'])
}

/// What a decorated text may look like: whether control sequences are
/// written is decided as the process runs, from its settings and from where
/// its output goes, so the text comes either bare or wrapped.
pub open spec fn shows(shown: Seq<char>, code: Seq<char>, text: Seq<char>) -> bool {
    shown == text || shown == wrapped(code, text)
}

/// A text that holds no escape character, so that no control sequence starts
/// inside it.
pub open spec fn free_of_escapes(text: Seq<char>) -> bool {
    forall|i: int| 0 <= i < text.len() ==> text[i] != escape()
}

/// Calls `Colorize::color` of `colored` on `text` and formats the result.
/// Believed of it: the output is `text` itself where the crate finds
/// colouring switched off, and otherwise `text` between the sequence for
/// the colour's foreground code and the reset sequence. Texts with an escape
/// character are left out, since the crate rewrites reset sequences in them.
#[verifier::external_body]
pub(crate) fn paint(text: &str, color: Color) -> (shown: String)
    requires
        free_of_escapes(text@),
    ensures
        shows(shown@, color_code(color), text@),
{
    let foreground = match color {
        Color::Red => colored::Color::Red,
        Color::BrightRed => colored::Color::BrightRed,
        Color::Yellow => colored::Color::Yellow,
        Color::BrightGreen => colored::Color::BrightGreen,
        Color::Green => colored::Color::Green,
    };
    text.color(foreground).to_string()
}

/// Calls `Colorize::bold` of `colored` on `text` and formats the result.
/// Believed of it: the output is `text` itself where the crate finds
/// colouring switched off, and otherwise `text` between the sequence for
/// bold type and the reset sequence. Texts with an escape character are left
/// out, since the crate rewrites reset sequences in them.
#[verifier::external_body]
pub(crate) fn embolden(text: &str) -> (shown: String)
    requires
        free_of_escapes(text@),
    ensures
        shows(shown@, bold_code(), text@),
{
    text.bold().to_string()
}

} // verus!
