//! Terminal colours for the console lines.
//!
//! The colouring itself is the work of the `colored` crate. Whether it emits
//! escape sequences at all is decided outside this crate, by the terminal and
//! the environment, so nothing here says which characters surround a painted
//! text: only that the text itself is still there.

use colored::ColoredString;
use colored::Colorize;
use vstd::prelude::*;

verus! {

/// `colored::ColoredString`: a text together with the colour and style to
/// show it in.
#[verifier::external_type_specification]
#[verifier::external_body]
pub struct ExColoredString(ColoredString);

/// The text that a `ColoredString` carries, without colour or style: what it
/// dereferences to.
pub uninterp spec fn carried_text(painted: ColoredString) -> Seq<char>;

/// The character that starts a terminal escape sequence.
pub open spec fn escape() -> char {
    '\u{1b}'
}

/// `line` holds `text` as one unbroken run.
pub open spec fn embeds(line: Seq<char>, text: Seq<char>) -> bool {
    exists|before: Seq<char>, after: Seq<char>| line == before + text + after
}

/// `painted` is a rendering of `text`: it holds `text` as one unbroken run,
/// unless `text` brings escape sequences of its own, in which case nothing is
/// known of it.
pub open spec fn renders(painted: Seq<char>, text: Seq<char>) -> bool {
    !text.contains(escape()) ==> embeds(painted, text)
}

/// `Colorize::bright_green` on a `&str`: the result carries the text it was
/// given.
#[verifier::external_body]
fn bright_green(text: &str) -> (painted: ColoredString)
    ensures
        carried_text(painted) == text@,
{
    text.bright_green()
}

/// `Colorize::bright_purple` on a `&str`: the result carries the text it was
/// given.
#[verifier::external_body]
fn bright_purple(text: &str) -> (painted: ColoredString)
    ensures
        carried_text(painted) == text@,
{
    text.bright_purple()
}

/// `Colorize::white` on a `&str`: the result carries the text it was
/// given.
#[verifier::external_body]
fn white(text: &str) -> (painted: ColoredString)
    ensures
        carried_text(painted) == text@,
{
    text.white()
}

/// `Colorize::blue` on a `&str`: the result carries the text it was
/// given.
#[verifier::external_body]
fn blue(text: &str) -> (painted: ColoredString)
    ensures
        carried_text(painted) == text@,
{
    text.blue()
}

/// `Colorize::yellow` on a `&str`: the result carries the text it was
/// given.
#[verifier::external_body]
fn yellow(text: &str) -> (painted: ColoredString)
    ensures
        carried_text(painted) == text@,
{
    text.yellow()
}

/// `Colorize::bright_cyan` on a `&str`: the result carries the text it was
/// given.
#[verifier::external_body]
fn bright_cyan(text: &str) -> (painted: ColoredString)
    ensures
        carried_text(painted) == text@,
{
    text.bright_cyan()
}

/// `Colorize::bright_magenta` on a `&str`: the result carries the text it was
/// given.
#[verifier::external_body]
fn bright_magenta(text: &str) -> (painted: ColoredString)
    ensures
        carried_text(painted) == text@,
{
    text.bright_magenta()
}

/// `Colorize::bright_red` on a `&str`: the result carries the text it was
/// given.
#[verifier::external_body]
fn bright_red(text: &str) -> (painted: ColoredString)
    ensures
        carried_text(painted) == text@,
{
    text.bright_red()
}

/// `Colorize::bright_yellow` on a `&str`: the result carries the text it was
/// given.
#[verifier::external_body]
fn bright_yellow(text: &str) -> (painted: ColoredString)
    ensures
        carried_text(painted) == text@,
{
    text.bright_yellow()
}

/// `Colorize::bold` on a `ColoredString`: the text it carries stays as it was.
#[verifier::external_body]
fn bold(text: ColoredString) -> (painted: ColoredString)
    ensures
        carried_text(painted) == carried_text(text),
{
    text.bold()
}

/// `ToString::to_string` on a `ColoredString`, which goes by its `Display`:
/// the carried text comes out either as it is or between a style prefix and
/// the reset sequence. A carried text that holds reset sequences of its own
/// is rewritten, so nothing is claimed where it holds an escape character.
#[verifier::external_body]
fn rendered(painted: &ColoredString) -> (line: String)
    ensures
        renders(line@, carried_text(*painted)),
{
    painted.to_string()
}

/// The colours in which the console lines are written.
#[derive(Debug, Clone, Copy, PartialEq, Eq, Structural)]
pub enum Tint {
    BrightGreen,
    BrightPurple,
    White,
    Blue,
    Yellow,
    BrightCyan,
    BrightMagenta,
    BrightRed,
    BrightYellow,
}

/// Paints `text` in `tint`, in bold type where `strong` is set.
pub fn paint(text: &str, tint: Tint, strong: bool) -> (painted: String)
    ensures
        renders(painted@, text@),
{
    let coloured = match tint {
        Tint::BrightGreen => bright_green(text),
        Tint::BrightPurple => bright_purple(text),
        Tint::White => white(text),
        Tint::Blue => blue(text),
        Tint::Yellow => yellow(text),
        Tint::BrightCyan => bright_cyan(text),
        Tint::BrightMagenta => bright_magenta(text),
        Tint::BrightRed => bright_red(text),
        Tint::BrightYellow => bright_yellow(text),
    };
    let styled = if strong {
        bold(coloured)
    } else {
        coloured
    };
    rendered(&styled)
}

} // verus!
