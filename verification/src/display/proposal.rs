//! How a proposal is shown: its status in colour, and its full detail view.
use vstd::prelude::*;

use crate::style::{Paint, Part, Span, is_painted, paint, parts_of, printed, push_span, render};
use crate::text::{
    char_upper, chars_of, decimal, decimal_exec, join, pad_right, push_chars, push_padded,
    push_str, string_of, upper_of,
};
use crate::types::proposal::{
    Proposal, ProposalStatus, Review, ReviewComment, Topic, paragraphs, portable_text_to_plain,
};
use crate::types::{Speaker, SpeakerFlag};

verus! {

/// The paint of each status.
pub open spec fn status_paint(s: ProposalStatus) -> Paint {
    match s {
        ProposalStatus::Submitted => Paint::Yellow,
        ProposalStatus::Accepted => Paint::Green,
        ProposalStatus::Confirmed => Paint::GreenBold,
        ProposalStatus::Rejected => Paint::Red,
        ProposalStatus::Waitlisted => Paint::Cyan,
        ProposalStatus::Withdrawn
        | ProposalStatus::Draft
        | ProposalStatus::Deleted
        | ProposalStatus::Unknown => Paint::Dimmed,
    }
}

/// The paint of a status.
pub fn status_paint_of(s: ProposalStatus) -> (p: Paint)
    ensures
        p == status_paint(s),
{
    match s {
        ProposalStatus::Submitted => Paint::Yellow,
        ProposalStatus::Accepted => Paint::Green,
        ProposalStatus::Confirmed => Paint::GreenBold,
        ProposalStatus::Rejected => Paint::Red,
        ProposalStatus::Waitlisted => Paint::Cyan,
        ProposalStatus::Withdrawn
        | ProposalStatus::Draft
        | ProposalStatus::Deleted
        | ProposalStatus::Unknown => Paint::Dimmed,
    }
}

/// The status label, padded to `width` characters, in the status's colour.
pub fn pad_and_colorize_status(status: ProposalStatus, width: usize) -> (r: String)
    ensures
        is_painted(pad_right(status.spec_label(), width as nat), status_paint(status), r@),
{
    let label = chars_of(status.label());
    let mut buf: Vec<char> = Vec::new();
    push_padded(&mut buf, &label, width);
    assert(buf@ =~= pad_right(status.spec_label(), width as nat));
    let s = string_of(&buf);
    paint(s.as_str(), status_paint_of(status))
}

/// `s` with its first character upper-cased.
pub open spec fn capitalized(s: Seq<char>) -> Seq<char> {
    if s.len() == 0 {
        s
    } else {
        upper_of(s[0]) + s.drop_first()
    }
}

fn capitalize(s: &str) -> (r: Vec<char>)
    ensures
        r@ == capitalized(s@),
{
    let cs = chars_of(s);
    if cs.len() == 0 {
        return cs;
    }
    let first = char_upper(cs[0]);
    let mut out = chars_of(first.as_str());
    let mut i: usize = 1;
    while i < cs.len()
        invariant
            1 <= i <= cs@.len(),
            out@ == upper_of(cs@[0]) + cs@.subrange(1, i as int),
        decreases cs@.len() - i,
    {
        out.push(cs[i]);
        i = i + 1;
        assert(cs@.subrange(1, i as int) =~= cs@.subrange(1, i - 1) + seq![cs@[i - 1]]);
    }
    assert(cs@.subrange(1, i as int) =~= cs@.drop_first());
    out
}

/// The text of an optional string, empty when absent.
pub open spec fn text_or_empty(o: Option<String>) -> Seq<char> {
    match o {
        Some(s) => s@,
        None => seq![],
    }
}

/// A flag as the detail view tags it.
pub open spec fn flag_tag(f: SpeakerFlag) -> Seq<char> {
    "["@ + f.spec_name() + "]"@
}

/// The tags of a speaker's flags.
pub open spec fn flag_tags(fs: Seq<SpeakerFlag>) -> Seq<Seq<char>> {
    fs.map_values(|f: SpeakerFlag| flag_tag(f))
}

/// One speaker's line: name and e-mail, then the flags in yellow.
pub open spec fn speaker_line_parts(s: Speaker) -> Seq<Part> {
    let head = "  - "@ + s.name@ + " <"@ + text_or_empty(s.email) + ">"@;
    if s.flags@.len() == 0 {
        seq![(head + "\n"@, None)]
    } else {
        seq![
            (head + " "@, None),
            (join(flag_tags(s.flags@), " "@), Some(Paint::Yellow)),
            ("\n"@, None),
        ]
    }
}

/// The lines of the speakers, in order.
pub open spec fn speakers_parts(ss: Seq<Speaker>) -> Seq<Part>
    decreases ss.len(),
{
    if ss.len() == 0 {
        seq![]
    } else {
        speakers_parts(ss.drop_last()) + speaker_line_parts(ss.last())
    }
}

/// The titles of the topics that have one, in order.
pub open spec fn topic_titles(ts: Seq<Topic>) -> Seq<Seq<char>>
    decreases ts.len(),
{
    if ts.len() == 0 {
        seq![]
    } else {
        let rest = topic_titles(ts.drop_last());
        match ts.last().title {
            Some(t) => rest.push(t@),
            None => rest,
        }
    }
}

/// The name a review is signed with, or `Anonymous`.
pub open spec fn reviewer_name(r: Review) -> Seq<char> {
    match r.reviewer {
        Some(v) => v.name@,
        None => "Anonymous"@,
    }
}

/// A review comment's line, dimmed.
pub open spec fn comment_parts(c: Seq<char>) -> Seq<Part> {
    seq![("    "@, None), (c, Some(Paint::Dimmed)), ("\n"@, None)]
}

/// One review: who, the scores (or that there is none), and the comment.
pub open spec fn review_parts(r: Review) -> Seq<Part> {
    let head = match r.score {
        Some(s) => "  "@ + reviewer_name(r) + " — Content: "@ + s.content.text@ + " Relevance: "@
            + s.relevance.text@ + " Speaker: "@ + s.speaker.text@ + " (total: "@ + s.total_text@
            + ")\n"@,
        None => "  "@ + reviewer_name(r) + " — (no score)\n"@,
    };
    seq![(head, None)] + match r.comment {
        ReviewComment::Null => seq![],
        ReviewComment::Text(c) => if c@.len() == 0 {
            seq![]
        } else {
            comment_parts(c@)
        },
        ReviewComment::Other(j) => comment_parts(j@),
    }
}

/// The reviews, in order.
pub open spec fn reviews_parts(rs: Seq<Review>) -> Seq<Part>
    decreases rs.len(),
{
    if rs.len() == 0 {
        seq![]
    } else {
        reviews_parts(rs.drop_last()) + review_parts(rs.last())
    }
}

/// The head of the detail view: title, id, status, format, level, language.
pub open spec fn head_parts(p: Proposal) -> Seq<Part> {
    seq![
        (p.title@, Some(Paint::Bold)),
        ("\n"@, None),
        ("ID:       "@ + p.id@ + "\n"@, None),
        ("Status:   "@, None),
        (p.status.spec_label(), Some(status_paint(p.status))),
        ("\n"@, None),
    ] + match p.format {
        Some(f) => seq![("Format:   "@ + f.spec_label() + "\n"@, None)],
        None => seq![],
    } + match p.level {
        Some(l) => seq![("Level:    "@ + capitalized(l@) + "\n"@, None)],
        None => seq![],
    } + match p.language {
        Some(l) => seq![("Language: "@ + capitalized(l@) + "\n"@, None)],
        None => seq![],
    }
}

/// The speakers section, when there are speakers.
pub open spec fn speakers_section(p: Proposal) -> Seq<Part> {
    if p.speakers@.len() == 0 {
        seq![]
    } else {
        seq![("\nSpeakers:\n"@, None)] + speakers_parts(p.speakers@)
    }
}

/// The topics line, when a topic has a title.
pub open spec fn topics_section(p: Proposal) -> Seq<Part> {
    let t = topic_titles(p.topics@);
    if t.len() == 0 {
        seq![]
    } else {
        seq![("\nTopics: "@ + join(t, ", "@) + "\n"@, None)]
    }
}

/// The description, when it has text.
pub open spec fn description_section(p: Proposal) -> Seq<Part> {
    let d = join(paragraphs(p.description@), "\n\n"@);
    if d.len() == 0 {
        seq![]
    } else {
        seq![("\nDescription:\n"@ + d + "\n"@, None)]
    }
}

/// The outline, when it is a non-empty string.
pub open spec fn outline_section(p: Proposal) -> Seq<Part> {
    match p.outline {
        Some(o) => if o@.len() == 0 {
            seq![]
        } else {
            seq![("\nOutline:\n"@ + o@ + "\n"@, None)]
        },
        None => seq![],
    }
}

/// The reviews section, when there are reviews.
pub open spec fn reviews_section(p: Proposal) -> Seq<Part> {
    if p.reviews@.len() == 0 {
        seq![]
    } else {
        seq![("\nReviews ("@ + decimal(p.reviews@.len()) + "):\n"@, None)] + reviews_parts(
            p.reviews@,
        )
    }
}

/// The whole detail view of a proposal.
pub open spec fn detail_parts(p: Proposal) -> Seq<Part> {
    head_parts(p) + speakers_section(p) + topics_section(p) + description_section(p)
        + outline_section(p) + reviews_section(p)
}

fn chars_then_newline(prefix: &str, s: &[char]) -> (r: Vec<char>)
    ensures
        r@ == prefix@ + s@ + "\n"@,
{
    let mut b = chars_of(prefix);
    push_chars(&mut b, s);
    push_str(&mut b, "\n");
    b
}

fn push_head(out: &mut Vec<Span>, p: &Proposal)
    ensures
        parts_of(final(out)@) == parts_of(old(out)@) + head_parts(*p),
{
    let ghost start = parts_of(out@);
    push_span(out, chars_of(p.title.as_str()), Some(Paint::Bold));
    push_span(out, chars_of("\n"), None);
    let id = chars_of(p.id.as_str());
    push_span(out, chars_then_newline("ID:       ", &id), None);
    push_span(out, chars_of("Status:   "), None);
    push_span(out, chars_of(p.status.label()), Some(status_paint_of(p.status)));
    push_span(out, chars_of("\n"), None);
    let ghost a = parts_of(out@);
    match p.format {
        Some(f) => {
            let l = chars_of(f.label());
            push_span(out, chars_then_newline("Format:   ", &l), None);
        },
        None => {},
    }
    let ghost b = parts_of(out@);
    match &p.level {
        Some(l) => {
            let c = capitalize(l.as_str());
            push_span(out, chars_then_newline("Level:    ", &c), None);
        },
        None => {},
    }
    let ghost c = parts_of(out@);
    match &p.language {
        Some(l) => {
            let c = capitalize(l.as_str());
            push_span(out, chars_then_newline("Language: ", &c), None);
        },
        None => {},
    }
    assert(parts_of(out@) =~= start + head_parts(*p));
}

fn flags_text(fs: &Vec<SpeakerFlag>) -> (r: Vec<char>)
    ensures
        r@ == join(flag_tags(fs@), " "@),
{
    let ghost tags = flag_tags(fs@);
    let mut out: Vec<char> = Vec::new();
    let mut i: usize = 0;
    assert(tags.take(0) =~= Seq::<Seq<char>>::empty());
    while i < fs.len()
        invariant
            i <= fs@.len(),
            tags == flag_tags(fs@),
            out@ == join(tags.take(i as int), " "@),
        decreases fs@.len() - i,
    {
        if i > 0 {
            push_str(&mut out, " ");
        }
        push_str(&mut out, "[");
        push_str(&mut out, fs[i].name());
        push_str(&mut out, "]");
        i = i + 1;
        assert(tags.take(i as int).drop_last() =~= tags.take(i - 1));
        if i == 1 {
            assert(tags.take(1) =~= seq![tags[0]]);
            assert(out@ =~= tags[0]);
        }
    }
    assert(tags.take(i as int) =~= tags);
    out
}

fn push_speaker(out: &mut Vec<Span>, s: &Speaker)
    ensures
        parts_of(final(out)@) == parts_of(old(out)@) + speaker_line_parts(*s),
{
    let ghost start = parts_of(out@);
    let mut head = chars_of("  - ");
    push_str(&mut head, s.name.as_str());
    push_str(&mut head, " <");
    match &s.email {
        Some(e) => push_str(&mut head, e.as_str()),
        None => {},
    }
    push_str(&mut head, ">");
    assert(head@ =~= "  - "@ + s.name@ + " <"@ + text_or_empty(s.email) + ">"@);
    if s.flags.len() == 0 {
        push_str(&mut head, "\n");
        push_span(out, head, None);
    } else {
        push_str(&mut head, " ");
        push_span(out, head, None);
        push_span(out, flags_text(&s.flags), Some(Paint::Yellow));
        push_span(out, chars_of("\n"), None);
    }
    assert(parts_of(out@) =~= start + speaker_line_parts(*s));
}

fn topic_titles_exec(ts: &Vec<Topic>) -> (r: Vec<String>)
    ensures
        r@.map_values(|s: String| s@) == topic_titles(ts@),
{
    let mut out: Vec<String> = Vec::new();
    let mut i: usize = 0;
    assert(ts@.take(0) =~= Seq::<Topic>::empty());
    assert(out@.map_values(|s: String| s@) =~= Seq::<Seq<char>>::empty());
    while i < ts.len()
        invariant
            i <= ts@.len(),
            out@.map_values(|s: String| s@) == topic_titles(ts@.take(i as int)),
        decreases ts@.len() - i,
    {
        let ghost prev = out@.map_values(|s: String| s@);
        assert(ts@.take(i + 1).drop_last() =~= ts@.take(i as int));
        match ts[i].title() {
            Some(t) => {
                out.push(string_of(&chars_of(t)));
                assert(out@.map_values(|s: String| s@) =~= prev.push(t@));
            },
            None => {},
        }
        i = i + 1;
    }
    assert(ts@.take(i as int) =~= ts@);
    out
}

fn push_review(out: &mut Vec<Span>, r: &Review)
    ensures
        parts_of(final(out)@) == parts_of(old(out)@) + review_parts(*r),
{
    let ghost start = parts_of(out@);
    let mut head = chars_of("  ");
    match &r.reviewer {
        Some(v) => push_str(&mut head, v.name.as_str()),
        None => push_str(&mut head, "Anonymous"),
    }
    match &r.score {
        Some(s) => {
            push_str(&mut head, " — Content: ");
            push_str(&mut head, s.content.text.as_str());
            push_str(&mut head, " Relevance: ");
            push_str(&mut head, s.relevance.text.as_str());
            push_str(&mut head, " Speaker: ");
            push_str(&mut head, s.speaker.text.as_str());
            push_str(&mut head, " (total: ");
            push_str(&mut head, s.total_text.as_str());
            push_str(&mut head, ")\n");
        },
        None => {
            push_str(&mut head, " — (no score)\n");
        },
    }
    push_span(out, head, None);
    let ghost mid = parts_of(out@);
    let comment: Option<&String> = match &r.comment {
        ReviewComment::Null => None,
        ReviewComment::Text(c) => if c.as_str().is_empty() {
            None
        } else {
            Some(c)
        },
        ReviewComment::Other(j) => Some(j),
    };
    match comment {
        Some(c) => {
            push_span(out, chars_of("    "), None);
            push_span(out, chars_of(c.as_str()), Some(Paint::Dimmed));
            push_span(out, chars_of("\n"), None);
            assert(parts_of(out@) =~= mid + comment_parts(c@));
        },
        None => {},
    }
    assert(parts_of(out@) =~= start + review_parts(*r));
}

fn push_speakers_section(out: &mut Vec<Span>, p: &Proposal)
    ensures
        parts_of(final(out)@) == parts_of(old(out)@) + speakers_section(*p),
{
    let ghost s0 = parts_of(out@);
    if p.speakers.len() > 0 {
        push_span(out, chars_of("\nSpeakers:\n"), None);
        let ghost s1 = parts_of(out@);
        let mut i: usize = 0;
        assert(p.speakers@.take(0) =~= Seq::<Speaker>::empty());
        while i < p.speakers.len()
            invariant
                i <= p.speakers@.len(),
                parts_of(out@) == s1 + speakers_parts(p.speakers@.take(i as int)),
            decreases p.speakers@.len() - i,
        {
            push_speaker(out, &p.speakers[i]);
            i = i + 1;
            assert(p.speakers@.take(i as int).drop_last() =~= p.speakers@.take(i - 1));
            assert(parts_of(out@) =~= s1 + speakers_parts(p.speakers@.take(i as int)));
        }
        assert(p.speakers@.take(i as int) =~= p.speakers@);
    }
    assert(parts_of(out@) =~= s0 + speakers_section(*p));
}

fn push_topics_section(out: &mut Vec<Span>, p: &Proposal)
    ensures
        parts_of(final(out)@) == parts_of(old(out)@) + topics_section(*p),
{
    let ghost s0 = parts_of(out@);
    let titles = topic_titles_exec(&p.topics);
    if titles.len() > 0 {
        let mut b = chars_of("\nTopics: ");
        let j = crate::text::join_strings(&titles, ", ");
        push_chars(&mut b, &j);
        push_str(&mut b, "\n");
        push_span(out, b, None);
    }
    assert(parts_of(out@) =~= s0 + topics_section(*p));
}

fn push_text_sections(out: &mut Vec<Span>, p: &Proposal)
    ensures
        parts_of(final(out)@) == parts_of(old(out)@) + description_section(*p) + outline_section(
            *p,
        ),
{
    let ghost s0 = parts_of(out@);
    if p.description.len() > 0 {
        let d = portable_text_to_plain(&p.description);
        if !d.as_str().is_empty() {
            let dc = chars_of(d.as_str());
            push_span(out, chars_then_newline("\nDescription:\n", &dc), None);
        }
    } else {
        assert(paragraphs(p.description@) =~= Seq::<Seq<char>>::empty());
    }
    assert(parts_of(out@) =~= s0 + description_section(*p));
    let ghost s1 = parts_of(out@);
    match &p.outline {
        Some(o) => {
            if !o.as_str().is_empty() {
                let oc = chars_of(o.as_str());
                push_span(out, chars_then_newline("\nOutline:\n", &oc), None);
            }
        },
        None => {},
    }
    assert(parts_of(out@) =~= s1 + outline_section(*p));
}

fn push_reviews_section(out: &mut Vec<Span>, p: &Proposal)
    ensures
        parts_of(final(out)@) == parts_of(old(out)@) + reviews_section(*p),
{
    let ghost s0 = parts_of(out@);
    if p.reviews.len() > 0 {
        let mut b = chars_of("\nReviews (");
        let n = decimal_exec(p.reviews.len() as u64);
        push_chars(&mut b, &n);
        push_str(&mut b, "):\n");
        push_span(out, b, None);
        let ghost s1 = parts_of(out@);
        let mut i: usize = 0;
        assert(p.reviews@.take(0) =~= Seq::<Review>::empty());
        while i < p.reviews.len()
            invariant
                i <= p.reviews@.len(),
                parts_of(out@) == s1 + reviews_parts(p.reviews@.take(i as int)),
            decreases p.reviews@.len() - i,
        {
            push_review(out, &p.reviews[i]);
            i = i + 1;
            assert(p.reviews@.take(i as int).drop_last() =~= p.reviews@.take(i - 1));
            assert(parts_of(out@) =~= s1 + reviews_parts(p.reviews@.take(i as int)));
        }
        assert(p.reviews@.take(i as int) =~= p.reviews@);
    }
    assert(parts_of(out@) =~= s0 + reviews_section(*p));
}

/// The spans of a proposal's detail view.
pub fn proposal_detail_spans(p: &Proposal) -> (out: Vec<Span>)
    ensures
        parts_of(out@) == detail_parts(*p),
{
    let mut out: Vec<Span> = Vec::new();
    assert(parts_of(out@) =~= Seq::<Part>::empty());
    push_head(&mut out, p);
    push_speakers_section(&mut out, p);
    push_topics_section(&mut out, p);
    push_text_sections(&mut out, p);
    push_reviews_section(&mut out, p);
    assert(parts_of(out@) =~= detail_parts(*p));
    out
}

/// A proposal's detail view, as printed.
pub fn render_proposal_detail(p: &Proposal) -> (r: String)
    ensures
        printed(detail_parts(*p), r@),
{
    let spans = proposal_detail_spans(p);
    render(&spans)
}

} // verus!
