//! Turning a style into terminal colours. The colouring itself is done
//! by the `colored` crate, which decides from the environment whether
//! to emit escape codes at all; what is stated here holds either way.

use vstd::prelude::*;
use colored::Colorize;
use crate::report::Style;

verus! {

/// A text together with the colour and weight it is to be shown in.
#[verifier::external_type_specification]
#[verifier::external_body]
pub struct ExColoredString(colored::ColoredString);

/// The text that a coloured string carries: its `input` field, which
/// the crate sets from the text it is made of and no styling touches.
pub uninterp spec fn colored_text(c: colored::ColoredString) -> Seq<char>;

/// `pre`, `text` and `post` in a row.
pub open spec fn framed(pre: Seq<char>, text: Seq<char>, post: Seq<char>) -> Seq<char> {
    pre + text + post
}

/// Whether `out` holds `text` unbroken, with something or nothing
/// before and after it.
pub open spec fn frames(text: Seq<char>, out: Seq<char>) -> bool {
    exists|pre: Seq<char>, post: Seq<char>| out == #[trigger] framed(pre, text, post)
}

/// Whether a text holds the escape character, with which every
/// terminal code begins.
pub open spec fn has_escape(text: Seq<char>) -> bool {
    text.contains('\u{1b}')
}

/// `colored::Colorize::cyan` on a `&str`: a coloured string that
/// carries the text given.
#[verifier::external_body]
fn cyan(text: &str) -> (r: colored::ColoredString)
    ensures
        colored_text(r) == text@,
{
    text.cyan()
}

/// `colored::Colorize::green` on a `&str`: a coloured string that
/// carries the text given.
#[verifier::external_body]
fn green(text: &str) -> (r: colored::ColoredString)
    ensures
        colored_text(r) == text@,
{
    text.green()
}

/// `colored::Colorize::red` on a `&str`: a coloured string that carries
/// the text given.
#[verifier::external_body]
fn red(text: &str) -> (r: colored::ColoredString)
    ensures
        colored_text(r) == text@,
{
    text.red()
}

/// `colored::Colorize::yellow` on a `&str`: a coloured string that
/// carries the text given.
#[verifier::external_body]
fn yellow(text: &str) -> (r: colored::ColoredString)
    ensures
        colored_text(r) == text@,
{
    text.yellow()
}

/// `colored::Colorize::blue` on a `&str`: a coloured string that
/// carries the text given.
#[verifier::external_body]
fn blue(text: &str) -> (r: colored::ColoredString)
    ensures
        colored_text(r) == text@,
{
    text.blue()
}

/// `colored::Colorize::dimmed` on a `&str`: a coloured string that
/// carries the text given.
#[verifier::external_body]
fn dimmed(text: &str) -> (r: colored::ColoredString)
    ensures
        colored_text(r) == text@,
{
    text.dimmed()
}

/// `colored::Colorize::bold` on a coloured string: the same text, now
/// also bold.
#[verifier::external_body]
fn bold(c: colored::ColoredString) -> (r: colored::ColoredString)
    ensures
        colored_text(r) == colored_text(c),
{
    c.bold()
}

/// The `Display` form of a coloured string. With colouring switched
/// off it is the text itself; with colouring on it is the text between
/// a style code and the reset code. A text free of escape characters
/// comes through unbroken in both cases, which is all that is claimed.
#[verifier::external_body]
fn shown(c: &colored::ColoredString) -> (r: String)
    ensures
        !has_escape(colored_text(*c)) ==> frames(colored_text(*c), r@),
{
    format!("{}", c)
}

/// A text as it is written to the terminal in a style. A plain text is
/// left as it is. A styled text that holds no escape character of its
/// own comes out unbroken, bare or between escape codes as the
/// environment has it.
pub fn paint(text: &str, style: Style) -> (r: String)
    ensures
        style == Style::Plain ==> r@ == text@,
        !has_escape(text@) ==> frames(text@, r@),
{
    match style {
        Style::Plain => {
            let r = String::from_str(text);
            assert(r@ =~= framed(Seq::empty(), text@, Seq::empty()));
            r
        },
        Style::CyanBold => shown(&bold(cyan(text))),
        Style::Cyan => shown(&cyan(text)),
        Style::GreenBold => shown(&bold(green(text))),
        Style::Green => shown(&green(text)),
        Style::RedBold => shown(&bold(red(text))),
        Style::YellowBold => shown(&bold(yellow(text))),
        Style::Blue => shown(&blue(text)),
        Style::Dimmed => shown(&dimmed(text)),
    }
}

} // verus!
