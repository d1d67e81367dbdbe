//! Presentation helpers that belong with the data: the colour of a session
//! status.

use vstd::prelude::*;
use crate::text::{is_substring, str_eq};

verus! {

/// How a status is shown.
#[derive(Debug, Clone, Copy, PartialEq, Eq)]
pub enum StatusStyle {
    GreenBold,
    Yellow,
    Blue,
    RedBold,
    Dimmed,
}

/// The style of each recognised status; any other status is dimmed.
pub open spec fn style_of(status: Seq<char>) -> StatusStyle {
    if status == "running"@ {
        StatusStyle::GreenBold
    } else if status == "idle"@ {
        StatusStyle::Yellow
    } else if status == "completed"@ {
        StatusStyle::Blue
    } else if status == "error"@ || status == "failed"@ {
        StatusStyle::RedBold
    } else {
        StatusStyle::Dimmed
    }
}

/// Chooses the style of a status.
pub fn status_style(status: &str) -> (r: StatusStyle)
    ensures
        r == style_of(status@),
{
    if str_eq(status, "running") {
        StatusStyle::GreenBold
    } else if str_eq(status, "idle") {
        StatusStyle::Yellow
    } else if str_eq(status, "completed") {
        StatusStyle::Blue
    } else if str_eq(status, "error") || str_eq(status, "failed") {
        StatusStyle::RedBold
    } else {
        StatusStyle::Dimmed
    }
}

/// The terminal sequence that ends a styled run.
pub open spec fn reset_seq() -> Seq<char> {
    seq!['\x1b', '[', '0', 'm']
}

/// The terminal sequence that opens a run in each style: the style codes,
/// then the foreground colour code, as colored writes them.
pub open spec fn style_prefix(st: StatusStyle) -> Seq<char> {
    match st {
        StatusStyle::GreenBold => seq!['\x1b', '[', '1', ';', '3', '2', 'm'],
        StatusStyle::Yellow => seq!['\x1b', '[', '3', '3', 'm'],
        StatusStyle::Blue => seq!['\x1b', '[', '3', '4', 'm'],
        StatusStyle::RedBold => seq!['\x1b', '[', '1', ';', '3', '1', 'm'],
        StatusStyle::Dimmed => seq!['\x1b', '[', '2', 'm'],
    }
}

/// `r` shows `s` in style `st`: either `s` itself (colour switched off) or
/// `s` between the style's opening sequence and the reset sequence.
pub open spec fn shows(r: Seq<char>, s: Seq<char>, st: StatusStyle) -> bool {
    !is_substring(reset_seq(), s) ==> (r == s || r == style_prefix(st) + s + reset_seq())
}

/// Relies on `colored::Colorize::green` and `bold`, shown through
/// `ColoredString`'s `Display`.
#[verifier::external_body]
fn paint_green_bold(s: &str) -> (r: String)
    ensures
        shows(r@, s@, StatusStyle::GreenBold),
{
    colored::Colorize::bold(colored::Colorize::green(s)).to_string()
}

/// Relies on `colored::Colorize::yellow`, shown through `ColoredString`'s `Display`.
#[verifier::external_body]
fn paint_yellow(s: &str) -> (r: String)
    ensures
        shows(r@, s@, StatusStyle::Yellow),
{
    colored::Colorize::yellow(s).to_string()
}

/// Relies on `colored::Colorize::blue`, shown through `ColoredString`'s `Display`.
#[verifier::external_body]
fn paint_blue(s: &str) -> (r: String)
    ensures
        shows(r@, s@, StatusStyle::Blue),
{
    colored::Colorize::blue(s).to_string()
}

/// Relies on `colored::Colorize::red` and `bold`, shown through
/// `ColoredString`'s `Display`.
#[verifier::external_body]
fn paint_red_bold(s: &str) -> (r: String)
    ensures
        shows(r@, s@, StatusStyle::RedBold),
{
    colored::Colorize::bold(colored::Colorize::red(s)).to_string()
}

/// Relies on `colored::Colorize::dimmed`, shown through `ColoredString`'s `Display`.
#[verifier::external_body]
fn paint_dimmed(s: &str) -> (r: String)
    ensures
        shows(r@, s@, StatusStyle::Dimmed),
{
    colored::Colorize::dimmed(s).to_string()
}

/// A status in its colour: running green and bold, idle yellow, completed
/// blue, error and failed red and bold, anything else dimmed.
pub fn status_colored(status: &str) -> (r: String)
    ensures
        shows(r@, status@, style_of(status@)),
{
    match status_style(status) {
        StatusStyle::GreenBold => paint_green_bold(status),
        StatusStyle::Yellow => paint_yellow(status),
        StatusStyle::Blue => paint_blue(status),
        StatusStyle::RedBold => paint_red_bold(status),
        StatusStyle::Dimmed => paint_dimmed(status),
    }
}

} // verus!
