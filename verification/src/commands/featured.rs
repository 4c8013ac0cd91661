use vstd::prelude::*;

use crate::style::{Paint, Part, Span, parts_of, push_span};
use crate::text::{chars_of, push_str};

verus! {

/// `konf admin featured`.
#[derive(Debug, Clone, PartialEq)]
pub struct FeaturedArgs {
    pub command: FeaturedCommand,
}

/// The `konf admin featured` subcommands.
#[derive(Debug, Clone, PartialEq)]
pub enum FeaturedCommand {
    List { json: bool },
    AddSpeaker { id: String },
    RemoveSpeaker { id: String, yes: bool },
    AddTalk { id: String },
    RemoveTalk { id: String, yes: bool },
}

/// The names in a featured list, one line each (`Unknown` for an entry
/// without one).
pub open spec fn name_lines(names: Seq<Option<String>>) -> Seq<char>
    decreases names.len(),
{
    if names.len() == 0 {
        seq![]
    } else {
        name_lines(names.drop_last()) + "- "@ + match names.last() {
            Some(n) => n@,
            None => "Unknown"@,
        } + "\n"@
    }
}

/// A featured list's lines: nothing when the answer is not a list, a note
/// when the list is empty, else its names.
pub open spec fn list_lines(names: Option<Vec<Option<String>>>, empty_note: Seq<char>) -> Seq<char> {
    match names {
        None => seq![],
        Some(v) => if v@.len() == 0 {
            empty_note + "\n"@
        } else {
            name_lines(v@)
        },
    }
}

/// The featured speakers and talks as the list shows them.
pub open spec fn featured_parts(speakers: Option<Vec<Option<String>>>, talks: Option<Vec<Option<String>>>) -> Seq<Part> {
    seq![
        ("── Featured Speakers ──"@, Some(Paint::BoldCyan)),
        ("\n"@ + list_lines(speakers, "No featured speakers."@) + "\n"@, None),
        ("── Featured Talks ──"@, Some(Paint::BoldCyan)),
        ("\n"@ + list_lines(talks, "No featured talks."@), None),
    ]
}

fn list_lines_exec(names: &Option<Vec<Option<String>>>, empty_note: &str) -> (r: Vec<char>)
    ensures
        r@ == list_lines(*names, empty_note@),
{
    match names {
        None => Vec::new(),
        Some(v) => {
            if v.len() == 0 {
                let mut b = chars_of(empty_note);
                push_str(&mut b, "\n");
                b
            } else {
                let mut b: Vec<char> = Vec::new();
                let mut i: usize = 0;
                assert(v@.take(0) =~= Seq::<Option<String>>::empty());
                while i < v.len()
                    invariant
                        i <= v@.len(),
                        b@ == name_lines(v@.take(i as int)),
                    decreases v@.len() - i,
                {
                    push_str(&mut b, "- ");
                    match &v[i] {
                        Some(n) => push_str(&mut b, n.as_str()),
                        None => push_str(&mut b, "Unknown"),
                    }
                    push_str(&mut b, "\n");
                    i = i + 1;
                    assert(v@.take(i as int).drop_last() =~= v@.take(i - 1));
                    assert(b@ =~= name_lines(v@.take(i as int)));
                }
                assert(v@.take(i as int) =~= v@);
                b
            }
        },
    }
}

/// The featured speakers and talks as the list shows them, as spans.
pub fn featured_spans(speakers: &Option<Vec<Option<String>>>, talks: &Option<Vec<Option<String>>>) -> (out: Vec<Span>)
    ensures
        parts_of(out@) == featured_parts(*speakers, *talks),
{
    let mut out: Vec<Span> = Vec::new();
    assert(parts_of(out@) =~= Seq::<Part>::empty());
    push_span(&mut out, chars_of("── Featured Speakers ──"), Some(Paint::BoldCyan));
    let mut b = chars_of("\n");
    let l = list_lines_exec(speakers, "No featured speakers.");
    crate::text::push_chars(&mut b, &l);
    push_str(&mut b, "\n");
    push_span(&mut out, b, None);
    push_span(&mut out, chars_of("── Featured Talks ──"), Some(Paint::BoldCyan));
    let mut c = chars_of("\n");
    let t = list_lines_exec(talks, "No featured talks.");
    crate::text::push_chars(&mut c, &t);
    push_span(&mut out, c, None);
    assert(parts_of(out@) =~= featured_parts(*speakers, *talks));
    out
}

} // verus!
