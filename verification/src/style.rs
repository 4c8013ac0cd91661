//! Terminal colours and weights, and text made of styled pieces.
//!
//! Whether a styled piece carries escape codes is decided by the `colored`
//! crate from the environment (a terminal, `NO_COLOR`, `CLICOLOR`), so every
//! contract here admits both outcomes: the plain text, or the text wrapped in
//! the piece's escape codes.
use colored::Colorize;
use vstd::prelude::*;

use crate::text::{concat, push_chars, push_str, replace_all, string_of};

verus! {

/// The styles this program paints text with.
#[derive(Debug, Clone, Copy, PartialEq, Eq, Structural)]
pub enum Paint {
    Bold,
    Dimmed,
    Red,
    Green,
    Yellow,
    Blue,
    Cyan,
    /// Bold and cyan (`.bold().cyan()`).
    BoldCyan,
    /// Bold and blue (`.bold().blue()`).
    BoldBlue,
    /// Green and bold (`.green().bold()`).
    GreenBold,
    /// Red and bold (`.red().bold()`).
    RedBold,
}

/// The SGR parameters of a paint: style first, then colour, joined by `;`.
pub open spec fn sgr_code(p: Paint) -> Seq<char> {
    match p {
        Paint::Bold => "1"@,
        Paint::Dimmed => "2"@,
        Paint::Red => "31"@,
        Paint::Green => "32"@,
        Paint::Yellow => "33"@,
        Paint::Blue => "34"@,
        Paint::Cyan => "36"@,
        Paint::BoldCyan => "1;36"@,
        Paint::BoldBlue => "1;34"@,
        Paint::GreenBold => "1;32"@,
        Paint::RedBold => "1;31"@,
    }
}

/// The escape sequence that switches a paint on.
pub open spec fn sgr_start(p: Paint) -> Seq<char> {
    "\x1b["@ + sgr_code(p) + "m"@
}

/// The escape sequence that resets all styles.
pub open spec fn sgr_reset() -> Seq<char> {
    "\x1b[0m"@
}

/// `t` painted with escape codes: the start sequence, `t` with the start
/// sequence repeated after each reset inside it, and a final reset.
pub open spec fn with_codes(t: Seq<char>, p: Paint) -> Seq<char> {
    sgr_start(p) + replace_all(t, sgr_reset(), sgr_reset() + sgr_start(p)) + sgr_reset()
}

/// `r` is `t` as printed with paint `p`: either plain or with its codes.
pub open spec fn is_painted(t: Seq<char>, p: Paint, r: Seq<char>) -> bool {
    r == t || r == with_codes(t, p)
}

/// `colored`'s `bold()`, printed.
#[verifier::external_body]
fn colored_bold(t: &str) -> (r: String)
    ensures
        is_painted(t@, Paint::Bold, r@),
{
    t.bold().to_string()
}

/// `colored`'s `dimmed()`, printed.
#[verifier::external_body]
fn colored_dimmed(t: &str) -> (r: String)
    ensures
        is_painted(t@, Paint::Dimmed, r@),
{
    t.dimmed().to_string()
}

/// `colored`'s `red()`, printed.
#[verifier::external_body]
fn colored_red(t: &str) -> (r: String)
    ensures
        is_painted(t@, Paint::Red, r@),
{
    t.red().to_string()
}

/// `colored`'s `green()`, printed.
#[verifier::external_body]
fn colored_green(t: &str) -> (r: String)
    ensures
        is_painted(t@, Paint::Green, r@),
{
    t.green().to_string()
}

/// `colored`'s `yellow()`, printed.
#[verifier::external_body]
fn colored_yellow(t: &str) -> (r: String)
    ensures
        is_painted(t@, Paint::Yellow, r@),
{
    t.yellow().to_string()
}

/// `colored`'s `blue()`, printed.
#[verifier::external_body]
fn colored_blue(t: &str) -> (r: String)
    ensures
        is_painted(t@, Paint::Blue, r@),
{
    t.blue().to_string()
}

/// `colored`'s `cyan()`, printed.
#[verifier::external_body]
fn colored_cyan(t: &str) -> (r: String)
    ensures
        is_painted(t@, Paint::Cyan, r@),
{
    t.cyan().to_string()
}

/// `colored`'s `bold().cyan()`, printed.
#[verifier::external_body]
fn colored_bold_cyan(t: &str) -> (r: String)
    ensures
        is_painted(t@, Paint::BoldCyan, r@),
{
    t.bold().cyan().to_string()
}

/// `colored`'s `bold().blue()`, printed.
#[verifier::external_body]
fn colored_bold_blue(t: &str) -> (r: String)
    ensures
        is_painted(t@, Paint::BoldBlue, r@),
{
    t.bold().blue().to_string()
}

/// `colored`'s `green().bold()`, printed.
#[verifier::external_body]
fn colored_green_bold(t: &str) -> (r: String)
    ensures
        is_painted(t@, Paint::GreenBold, r@),
{
    t.green().bold().to_string()
}

/// `colored`'s `red().bold()`, printed.
#[verifier::external_body]
fn colored_red_bold(t: &str) -> (r: String)
    ensures
        is_painted(t@, Paint::RedBold, r@),
{
    t.red().bold().to_string()
}

/// `t` printed with paint `p`.
pub fn paint(t: &str, p: Paint) -> (r: String)
    ensures
        is_painted(t@, p, r@),
{
    match p {
        Paint::Bold => colored_bold(t),
        Paint::Dimmed => colored_dimmed(t),
        Paint::Red => colored_red(t),
        Paint::Green => colored_green(t),
        Paint::Yellow => colored_yellow(t),
        Paint::Blue => colored_blue(t),
        Paint::Cyan => colored_cyan(t),
        Paint::BoldCyan => colored_bold_cyan(t),
        Paint::BoldBlue => colored_bold_blue(t),
        Paint::GreenBold => colored_green_bold(t),
        Paint::RedBold => colored_red_bold(t),
    }
}

/// A piece of text with an optional paint.
#[derive(Debug, Clone, PartialEq)]
pub struct Span {
    pub text: Vec<char>,
    pub paint: Option<Paint>,
}

impl View for Span {
    type V = (Seq<char>, Option<Paint>);

    open spec fn view(&self) -> (Seq<char>, Option<Paint>) {
        (self.text@, self.paint)
    }
}

/// A span's text and paint.
pub type Part = (Seq<char>, Option<Paint>);

/// The views of spans.
pub open spec fn parts_of(spans: Seq<Span>) -> Seq<Part> {
    spans.map_values(|s: Span| s@)
}

/// `r` is the part as printed.
pub open spec fn part_printed(part: Part, r: Seq<char>) -> bool {
    match part.1 {
        None => r == part.0,
        Some(p) => is_painted(part.0, p, r),
    }
}

/// `r` is the parts printed one after the other.
pub open spec fn printed(parts: Seq<Part>, r: Seq<char>) -> bool {
    exists|pieces: Seq<Seq<char>>|
        pieces.len() == parts.len() && (forall|i: int|
            0 <= i < parts.len() ==> part_printed(#[trigger] parts[i], pieces[i])) && r == concat(
            pieces,
        )
}

/// An unpainted span.
pub fn plain(t: &str) -> (s: Span)
    ensures
        s.text@ == t@,
        s.paint is None,
{
    let mut v: Vec<char> = Vec::new();
    push_str(&mut v, t);
    Span { text: v, paint: None }
}

/// A painted span.
pub fn painted(t: &str, p: Paint) -> (s: Span)
    ensures
        s.text@ == t@,
        s.paint == Some(p),
{
    let mut v: Vec<char> = Vec::new();
    push_str(&mut v, t);
    Span { text: v, paint: Some(p) }
}

/// Appends a span.
pub fn push_span(out: &mut Vec<Span>, text: Vec<char>, paint: Option<Paint>)
    ensures
        parts_of(final(out)@) == parts_of(old(out)@).push((text@, paint)),
{
    let ghost before = out@;
    let s = Span { text, paint };
    out.push(s);
    assert(parts_of(out@) =~= parts_of(before).push(s@));
}

/// Prints the spans one after the other.
pub fn render(spans: &[Span]) -> (r: String)
    ensures
        printed(parts_of(spans@), r@),
{
    let mut out: Vec<char> = Vec::new();
    let ghost mut pieces: Seq<Seq<char>> = seq![];
    let mut i: usize = 0;
    while i < spans.len()
        invariant
            i <= spans@.len(),
            pieces.len() == i,
            forall|j: int| 0 <= j < i ==> part_printed(#[trigger] parts_of(spans@)[j], pieces[j]),
            out@ == concat(pieces),
        decreases spans@.len() - i,
    {
        let s = &spans[i];
        let ghost before = pieces;
        match s.paint {
            None => {
                push_chars(&mut out, &s.text);
                proof {
                    pieces = pieces.push(s.text@);
                }
            },
            Some(p) => {
                let t = string_of(&s.text);
                let r = paint(t.as_str(), p);
                push_str(&mut out, r.as_str());
                proof {
                    pieces = pieces.push(r@);
                }
            },
        }
        assert(pieces.drop_last() =~= before);
        i = i + 1;
    }
    assert(pieces.len() == parts_of(spans@).len());
    string_of(&out)
}

} // verus!
