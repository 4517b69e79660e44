//! Terminal styling through the `colored` crate.
//!
//! `colored` decides at run time, from the environment and from whether
//! standard output is a terminal, whether to emit ANSI escapes at all.
//! Every contract here therefore allows both outcomes: the input
//! unchanged, or the input wrapped in the style's escape prefix and the
//! reset suffix. When the input itself contains a reset sequence,
//! `colored` re-opens the style after it, so nothing is claimed then.
use vstd::prelude::*;

use colored::Colorize;

verus! {

/// The ANSI reset sequence that ends every styled span.
pub open spec fn csi_reset() -> Seq<char> {
    "\u{1b}[0m"@
}

/// Whether `s` contains the ANSI reset sequence anywhere.
pub open spec fn contains_reset(s: Seq<char>) -> bool {
    exists|i: int| 0 <= i && i + 4 <= s.len() && #[trigger] s.subrange(i, i + 4) == csi_reset()
}

/// The escape prefix for blue italic text.
pub open spec fn prefix_blue_italic() -> Seq<char> {
    "\u{1b}[3;34m"@
}

/// The escape prefix for green bold text.
pub open spec fn prefix_green_bold() -> Seq<char> {
    "\u{1b}[1;32m"@
}

/// The escape prefix for bold underlined text.
pub open spec fn prefix_bold_underline() -> Seq<char> {
    "\u{1b}[1;4m"@
}

/// The escape prefix for bright yellow text.
pub open spec fn prefix_bright_yellow() -> Seq<char> {
    "\u{1b}[93m"@
}

/// The escape prefix for bright white text.
pub open spec fn prefix_bright_white() -> Seq<char> {
    "\u{1b}[97m"@
}

/// How a styled string relates to its input: unchanged when coloring
/// is off, or wrapped in the style's prefix and the reset suffix; when
/// the input already holds a reset sequence, nothing more is claimed.
pub open spec fn painted(out: Seq<char>, inp: Seq<char>, prefix: Seq<char>) -> bool {
    ||| out == inp
    ||| out == prefix + inp + csi_reset()
    ||| contains_reset(inp)
}

/// Relies on colored's `Colorize::blue` and `italic` and on
/// `ColoredString`'s `Display`: off, the input is written unchanged;
/// on, it is wrapped in "\x1b[3;34m" ... "\x1b[0m".
#[verifier::external_body]
fn paint_blue_italic(s: &str) -> (r: String)
    ensures
        painted(r@, s@, prefix_blue_italic()),
{
    format!("{}", s.blue().italic())
}

/// Relies on colored's `Colorize::green` and `bold` and on
/// `ColoredString`'s `Display`: off, the input is written unchanged;
/// on, it is wrapped in "\x1b[1;32m" ... "\x1b[0m".
#[verifier::external_body]
fn paint_green_bold(s: &str) -> (r: String)
    ensures
        painted(r@, s@, prefix_green_bold()),
{
    format!("{}", s.green().bold())
}

/// Relies on colored's `Colorize::bold` and `underline` and on
/// `ColoredString`'s `Display`: off, the input is written unchanged;
/// on, it is wrapped in "\x1b[1;4m" ... "\x1b[0m".
#[verifier::external_body]
fn paint_bold_underline(s: &str) -> (r: String)
    ensures
        painted(r@, s@, prefix_bold_underline()),
{
    format!("{}", s.bold().underline())
}

/// Relies on colored's `Colorize::bright_yellow` and on
/// `ColoredString`'s `Display`: off, the input is written unchanged;
/// on, it is wrapped in "\x1b[93m" ... "\x1b[0m".
#[verifier::external_body]
fn paint_bright_yellow(s: &str) -> (r: String)
    ensures
        painted(r@, s@, prefix_bright_yellow()),
{
    format!("{}", s.bright_yellow())
}

/// Relies on colored's `Colorize::bright_white` and on
/// `ColoredString`'s `Display`: off, the input is written unchanged;
/// on, it is wrapped in "\x1b[97m" ... "\x1b[0m".
#[verifier::external_body]
fn paint_bright_white(s: &str) -> (r: String)
    ensures
        painted(r@, s@, prefix_bright_white()),
{
    format!("{}", s.bright_white())
}

/// Styles the architecture string for the report header.
pub fn style_arch(s: &str) -> (r: String)
    ensures
        painted(r@, s@, prefix_bright_yellow()),
{
    paint_bright_yellow(s)
}

/// Styles the hostname for the report header.
pub fn style_host(s: &str) -> (r: String)
    ensures
        painted(r@, s@, prefix_bright_white()),
{
    paint_bright_white(s)
}

/// Styles a section header of the help text.
pub fn style_section_header(s: &str) -> (r: String)
    ensures
        painted(r@, s@, prefix_green_bold()),
{
    paint_green_bold(s)
}

/// Styles a glossary header of the help text.
pub fn style_glossary_header(s: &str) -> (r: String)
    ensures
        painted(r@, s@, prefix_bold_underline()),
{
    paint_bold_underline(s)
}

/// How an optional styled string relates to its optional input: absent
/// exactly when the input is absent, otherwise painted blue italic.
pub open spec fn blue_opt(out: Option<Seq<char>>, inp: Option<Seq<char>>) -> bool {
    match inp {
        Option::None => out is None,
        Option::Some(s) => out is Some && painted(out->0, s, prefix_blue_italic()),
    }
}

/// Styles an optional string in blue italics; an absent value stays
/// absent.
pub fn get_string_blue(string: Option<String>) -> (r: Option<String>)
    ensures
        blue_opt(r.deep_view(), string.deep_view()),
{
    match string {
        Option::Some(s) => Option::Some(paint_blue_italic(s.as_str())),
        Option::None => Option::None,
    }
}

} // verus!
