//! How sponsors are shown: a row of the list, the detail view, the history.
use vstd::prelude::*;

use crate::style::{Paint, Part, Span, parts_of, printed, push_span, render};
use crate::text::{
    byte_prefix, byte_prefix_exec, chars_of, join, pad_right, push_chars, push_padded, push_str,
    string_of, texts,
};
use crate::types::{
    ActivityType, ContactPerson, SpeakerRef, SponsorActivity, SponsorForConference, SponsorStatus,
};
use crate::ui::{truncate, truncated};

verus! {

/// The header above the sponsor list.
pub const SPONSOR_TABLE_HEADER: &'static str =
    "SPONSOR              STATUS         LAST ACT        CONTRACT         TIER";

/// The paint of each stage.
pub open spec fn stage_paint(s: SponsorStatus) -> Paint {
    match s {
        SponsorStatus::ClosedWon => Paint::Green,
        SponsorStatus::Negotiating => Paint::Yellow,
        SponsorStatus::Contacted => Paint::Cyan,
        SponsorStatus::Prospect | SponsorStatus::Unknown => Paint::Dimmed,
        SponsorStatus::ClosedLost => Paint::Red,
    }
}

fn stage_paint_of(s: SponsorStatus) -> (p: Paint)
    ensures
        p == stage_paint(s),
{
    match s {
        SponsorStatus::ClosedWon => Paint::Green,
        SponsorStatus::Negotiating => Paint::Yellow,
        SponsorStatus::Contacted => Paint::Cyan,
        SponsorStatus::Prospect | SponsorStatus::Unknown => Paint::Dimmed,
        SponsorStatus::ClosedLost => Paint::Red,
    }
}

/// The sponsor's organisation name, or `Unknown`.
pub open spec fn org_name(s: SponsorForConference) -> Seq<char> {
    match s.sponsor {
        Some(sp) => sp.name@,
        None => "Unknown"@,
    }
}

fn org_name_exec(s: &SponsorForConference) -> (r: Vec<char>)
    ensures
        r@ == org_name(*s),
{
    match &s.sponsor {
        Some(sp) => chars_of(sp.name.as_str()),
        None => chars_of("Unknown"),
    }
}

/// The first ten characters of a text (what `{:.10}` prints).
pub open spec fn first_ten(s: Seq<char>) -> Seq<char> {
    if s.len() <= 10 {
        s
    } else {
        s.take(10)
    }
}

/// A sponsor as one row: name, stage in colour, last activity date dimmed,
/// contract state and tier.
pub open spec fn row_parts(s: SponsorForConference) -> Seq<Part> {
    let last = match s.last_activity {
        Some(a) => first_ten(a.created_at@),
        None => "-"@,
    };
    seq![
        (pad_right(truncated(org_name(s), 18), 20) + " "@, None),
        (pad_right(s.status.spec_name(), 14), Some(stage_paint(s.status))),
        (" "@, None),
        (pad_right(last, 15), Some(Paint::Dimmed)),
        (" "@ + pad_right(
            match s.contract_status {
                Some(c) => c@,
                None => "-"@,
            },
            16,
        ) + " "@ + match s.tier {
            Some(t) => t.title@,
            None => "-"@,
        }, None),
    ]
}

fn chars_padded(s: &[char], w: usize) -> (r: Vec<char>)
    ensures
        r@ == pad_right(s@, w as nat),
{
    let mut b: Vec<char> = Vec::new();
    push_padded(&mut b, s, w);
    assert(b@ =~= pad_right(s@, w as nat));
    b
}

/// A sponsor as one row of the list, as spans.
pub fn sponsor_row_spans(s: &SponsorForConference) -> (out: Vec<Span>)
    ensures
        parts_of(out@) == row_parts(*s),
{
    let name = org_name_exec(s);
    let tn = truncate(string_of(&name).as_str(), 18);
    let mut first = chars_padded(&chars_of(tn.as_str()), 20);
    push_str(&mut first, " ");
    let status = chars_padded(&chars_of(s.status.name()), 14);
    let last: Vec<char> = match &s.last_activity {
        Some(a) => {
            let cs = chars_of(a.created_at.as_str());
            if cs.len() <= 10 {
                cs
            } else {
                let mut t: Vec<char> = Vec::new();
                let mut i: usize = 0;
                while i < 10
                    invariant
                        i <= 10 < cs@.len(),
                        t@ == cs@.take(i as int),
                    decreases 10 - i,
                {
                    t.push(cs[i]);
                    i = i + 1;
                    assert(t@ =~= cs@.take(i as int));
                }
                t
            }
        },
        None => chars_of("-"),
    };
    let mut rest = chars_of(" ");
    let contract: Vec<char> = match &s.contract_status {
        Some(c) => chars_of(c.as_str()),
        None => chars_of("-"),
    };
    push_padded(&mut rest, &contract, 16);
    push_str(&mut rest, " ");
    match &s.tier {
        Some(t) => push_str(&mut rest, t.title.as_str()),
        None => push_str(&mut rest, "-"),
    }
    let mut out: Vec<Span> = Vec::new();
    assert(parts_of(out@) =~= Seq::<Part>::empty());
    push_span(&mut out, first, None);
    push_span(&mut out, status, Some(stage_paint_of(s.status)));
    push_span(&mut out, chars_of(" "), None);
    push_span(&mut out, chars_padded(&last, 15), Some(Paint::Dimmed));
    push_span(&mut out, rest, None);
    assert(parts_of(out@) =~= row_parts(*s));
    out
}

/// A sponsor as one row of the list, as printed.
pub fn format_sponsor_row(s: &SponsorForConference) -> (r: String)
    ensures
        printed(row_parts(*s), r@),
{
    let spans = sponsor_row_spans(s);
    render(&spans)
}

/// An activity kind as history lines label it, upper-cased in brackets.
pub open spec fn kind_label(k: ActivityType) -> Seq<char> {
    match k {
        ActivityType::Note => "[NOTE]"@,
        ActivityType::Call => "[CALL]"@,
        ActivityType::Meeting => "[MEETING]"@,
        ActivityType::Email => "[EMAIL]"@,
        ActivityType::StageChange => "[STAGE-CHANGE]"@,
        ActivityType::Unknown => "[UNKNOWN]"@,
    }
}

fn kind_label_exec(k: ActivityType) -> (s: &'static str)
    ensures
        s@ == kind_label(k),
{
    match k {
        ActivityType::Note => "[NOTE]",
        ActivityType::Call => "[CALL]",
        ActivityType::Meeting => "[MEETING]",
        ActivityType::Email => "[EMAIL]",
        ActivityType::StageChange => "[STAGE-CHANGE]",
        ActivityType::Unknown => "[UNKNOWN]",
    }
}

/// Who wrote an entry, as history lines add it.
pub open spec fn author_text(by: Option<SpeakerRef>) -> Seq<char> {
    match by {
        Some(a) => " by "@ + a.name@,
        None => seq![],
    }
}

fn author_exec(by: &Option<SpeakerRef>) -> (r: Vec<char>)
    ensures
        r@ == author_text(*by),
{
    match by {
        Some(a) => {
            let mut b = chars_of(" by ");
            push_str(&mut b, a.name.as_str());
            b
        },
        None => Vec::new(),
    }
}

/// One history entry with its author: date dimmed, kind in yellow, the
/// description, the author dimmed; `None` where the time is shorter than
/// ten bytes or its tenth byte is inside a character.
pub open spec fn entry_parts(
    prefix: Seq<char>,
    created_at: Seq<char>,
    kind: ActivityType,
    description: Seq<char>,
    author: Option<Seq<char>>,
) -> Option<Seq<Part>> {
    match byte_prefix(created_at, 10) {
        Some(date) => Some(
            seq![(prefix, None), (date, Some(Paint::Dimmed)), (" "@, None), (kind_label(kind), Some(Paint::Yellow))]
                + match author {
                Some(a) => seq![(" "@ + description, None), (a, Some(Paint::Dimmed)), ("\n"@, None)],
                None => seq![(" "@ + description + "\n"@, None)],
            },
        ),
        None => None,
    }
}

/// The characters of an optional buffer.
pub open spec fn chars_opt(o: Option<Vec<char>>) -> Option<Seq<char>> {
    match o {
        Some(a) => Some(a@),
        None => None,
    }
}

fn push_entry(
    out: &mut Vec<Span>,
    prefix: &str,
    created_at: &str,
    kind: ActivityType,
    description: &str,
    author: Option<Vec<char>>,
) -> (ok: bool)
    ensures
        ok == (entry_parts(
            prefix@,
            created_at@,
            kind,
            description@,
            chars_opt(author),
        ) is Some),
        ok ==> parts_of(final(out)@) == parts_of(old(out)@) + entry_parts(
            prefix@,
            created_at@,
            kind,
            description@,
            chars_opt(author),
        )->0,
        !ok ==> final(out)@ == old(out)@,
{
    let ghost start = parts_of(out@);
    let date = match byte_prefix_exec(&chars_of(created_at), 10) {
        Some(d) => d,
        None => {
            return false;
        },
    };
    push_span(out, chars_of(prefix), None);
    push_span(out, date, Some(Paint::Dimmed));
    push_span(out, chars_of(" "), None);
    push_span(out, chars_of(kind_label_exec(kind)), Some(Paint::Yellow));
    let ghost aview = chars_opt(author);
    match author {
        Some(a) => {
            let mut d = chars_of(" ");
            push_str(&mut d, description);
            push_span(out, d, None);
            push_span(out, a, Some(Paint::Dimmed));
            push_span(out, chars_of("\n"), None);
        },
        None => {
            let mut d = chars_of(" ");
            push_str(&mut d, description);
            push_str(&mut d, "\n");
            push_span(out, d, None);
        },
    }
    assert(parts_of(out@) =~= start + entry_parts(prefix@, created_at@, kind, description@, aview)->0);
    true
}

/// The text of an optional string.
pub open spec fn opt_str(o: Option<String>) -> Option<Seq<char>> {
    match o {
        Some(x) => Some(x@),
        None => None,
    }
}

/// A labelled line, when there is a value.
pub open spec fn opt_line(label: Seq<char>, o: Option<Seq<char>>) -> Seq<char> {
    match o {
        Some(x) => label + x + "\n"@,
        None => seq![],
    }
}

fn push_opt_line(b: &mut Vec<char>, label: &str, v: Option<&str>)
    ensures
        final(b)@ == old(b)@ + opt_line(
            label@,
            match v {
                Some(x) => Some(x@),
                None => None,
            },
        ),
{
    match v {
        Some(x) => {
            push_str(b, label);
            push_str(b, x);
            push_str(b, "\n");
        },
        None => {
            assert(old(b)@ + Seq::<char>::empty() =~= old(b)@);
        },
    }
}

/// The contract value with its currency (NOK unless given).
pub open spec fn value_text(s: SponsorForConference) -> Option<Seq<char>> {
    match s.contract_value {
        Some(v) => Some(v@ + " "@ + match s.contract_currency {
            Some(c) => c@,
            None => "NOK"@,
        }),
        None => None,
    }
}

/// The organisation's website.
pub open spec fn website_of(s: SponsorForConference) -> Option<Seq<char>> {
    match s.sponsor {
        Some(sp) => opt_str(sp.website),
        None => None,
    }
}

/// The organisation's LinkedIn page.
pub open spec fn linkedin_of(s: SponsorForConference) -> Option<Seq<char>> {
    match s.sponsor {
        Some(sp) => opt_str(sp.linkedin_url),
        None => None,
    }
}

/// The lines of the detail view from the contract to the organisation's
/// LinkedIn page.
pub open spec fn info_text(s: SponsorForConference) -> Seq<char> {
    opt_line("Contract:        "@, opt_str(s.contract_status)) + opt_line(
        "Invoice:         "@,
        opt_str(s.invoice_status),
    ) + opt_line(
        "Tier:            "@,
        match s.tier {
            Some(t) => Some(t.title@),
            None => None,
        },
    ) + opt_line(
        "Assigned to:     "@,
        match s.assigned_to {
            Some(a) => Some(a.name@),
            None => None,
        },
    ) + opt_line("Contract value:  "@, value_text(s)) + opt_line("Website:         "@, website_of(s))
        + opt_line("LinkedIn (Org):  "@, linkedin_of(s))
}

fn as_opt_str(o: &Option<String>) -> (r: Option<&str>)
    ensures
        match r {
            Some(x) => Some(x@),
            None => None,
        } == opt_str(*o),
{
    match o {
        Some(x) => Some(x.as_str()),
        None => None,
    }
}

fn value_exec(s: &SponsorForConference) -> (r: Option<Vec<char>>)
    ensures
        chars_opt(r) == value_text(*s),
{
    match &s.contract_value {
        Some(v) => {
            let mut b = chars_of(v.as_str());
            push_str(&mut b, " ");
            match &s.contract_currency {
                Some(c) => push_str(&mut b, c.as_str()),
                None => push_str(&mut b, "NOK"),
            }
            Some(b)
        },
        None => None,
    }
}

fn info_exec(s: &SponsorForConference) -> (r: Vec<char>)
    ensures
        r@ == info_text(*s),
{
    let mut b: Vec<char> = Vec::new();
    push_opt_line(&mut b, "Contract:        ", as_opt_str(&s.contract_status));
    push_opt_line(&mut b, "Invoice:         ", as_opt_str(&s.invoice_status));
    let tier: Option<&str> = match &s.tier {
        Some(t) => Some(t.title.as_str()),
        None => None,
    };
    push_opt_line(&mut b, "Tier:            ", tier);
    let assigned: Option<&str> = match &s.assigned_to {
        Some(a) => Some(a.name.as_str()),
        None => None,
    };
    push_opt_line(&mut b, "Assigned to:     ", assigned);
    let value = value_exec(s);
    let vs = match &value {
        Some(v) => Some(string_of(v)),
        None => None,
    };
    let vr: Option<&str> = match &vs {
        Some(x) => Some(x.as_str()),
        None => None,
    };
    push_opt_line(&mut b, "Contract value:  ", vr);
    let (web, li): (Option<&str>, Option<&str>) = match &s.sponsor {
        Some(sp) => (as_opt_str(&sp.website), as_opt_str(&sp.linkedin_url)),
        None => (None, None),
    };
    push_opt_line(&mut b, "Website:         ", web);
    push_opt_line(&mut b, "LinkedIn (Org):  ", li);
    assert(b@ =~= info_text(*s));
    b
}

/// The text of an optional string, empty when absent.
pub open spec fn or_empty(o: Option<String>) -> Seq<char> {
    match o {
        Some(x) => x@,
        None => seq![],
    }
}

/// A contact's line.
pub open spec fn contact_line(c: ContactPerson) -> Seq<char> {
    "  - "@ + c.name@ + " <"@ + or_empty(c.email) + "> "@ + or_empty(c.role) + (if c.is_primary
        == Some(true) {
        " [primary]"@
    } else {
        seq![]
    }) + (match c.linkedin_url {
        Some(u) => " | LinkedIn: "@ + u@,
        None => seq![],
    }) + "\n"@
}

fn push_or_empty(b: &mut Vec<char>, o: &Option<String>)
    ensures
        final(b)@ == old(b)@ + or_empty(*o),
{
    match o {
        Some(x) => push_str(b, x.as_str()),
        None => {
            assert(old(b)@ + Seq::<char>::empty() =~= old(b)@);
        },
    }
}

fn contact_line_exec(c: &ContactPerson, b: &mut Vec<char>)
    ensures
        final(b)@ == old(b)@ + contact_line(*c),
{
    let ghost b0 = b@;
    push_str(b, "  - ");
    push_str(b, c.name.as_str());
    push_str(b, " <");
    push_or_empty(b, &c.email);
    push_str(b, "> ");
    push_or_empty(b, &c.role);
    let ghost b1 = b@;
    if c.is_primary == Some(true) {
        push_str(b, " [primary]");
    }
    let ghost b2 = b@;
    match &c.linkedin_url {
        Some(u) => {
            push_str(b, " | LinkedIn: ");
            push_str(b, u.as_str());
        },
        None => {},
    }
    let ghost b3 = b@;
    push_str(b, "\n");
    assert(b1 =~= b0 + "  - "@ + c.name@ + " <"@ + or_empty(c.email) + "> "@ + or_empty(c.role));
    assert(b@ =~= b0 + contact_line(*c));
}

/// The contacts' lines.
pub open spec fn contact_lines(cs: Seq<ContactPerson>) -> Seq<char>
    decreases cs.len(),
{
    if cs.len() == 0 {
        seq![]
    } else {
        contact_lines(cs.drop_last()) + contact_line(cs.last())
    }
}


/// The contacts block, when there are contacts.
pub open spec fn contacts_block(s: SponsorForConference) -> Seq<char> {
    if s.contact_persons@.len() > 0 {
        "\nContacts:\n"@ + contact_lines(s.contact_persons@)
    } else {
        seq![]
    }
}

/// The billing block, when there is a billing e-mail or reference.
pub open spec fn billing_block(s: SponsorForConference) -> Seq<char> {
    match s.billing {
        Some(b) => if b.email is Some || b.reference is Some {
            "\nBilling:\n"@ + opt_line("  Email:     "@, opt_str(b.email)) + opt_line(
                "  Reference: "@,
                opt_str(b.reference),
            )
        } else {
            seq![]
        },
        None => seq![],
    }
}

/// The notes block, when there are notes.
pub open spec fn notes_block(s: SponsorForConference) -> Seq<char> {
    match s.notes {
        Some(n) => if n@.len() > 0 {
            "\nNotes:\n"@ + n@ + "\n"@
        } else {
            seq![]
        },
        None => seq![],
    }
}

/// The tags line and the activity count.
pub open spec fn tags_count(s: SponsorForConference) -> Seq<char> {
    (if s.tags@.len() > 0 {
        "\nTags: "@ + join(texts(s.tags@), ", "@) + "\n"@
    } else {
        seq![]
    }) + match s.activity_count {
        Some(n) => "Total activities: "@ + crate::text::decimal(n as nat) + "\n"@,
        None => seq![],
    }
}

/// The lines of the detail view from the contacts to the activity count.
pub open spec fn tail_text(s: SponsorForConference) -> Seq<char> {
    contacts_block(s) + billing_block(s) + notes_block(s) + tags_count(s)
}

fn contacts_exec(s: &SponsorForConference, b: &mut Vec<char>)
    ensures
        final(b)@ == old(b)@ + contacts_block(*s),
{
    let ghost b0 = b@;
    if s.contact_persons.len() > 0 {
        push_str(b, "\nContacts:\n");
        let ghost b1 = b@;
        let mut i: usize = 0;
        assert(s.contact_persons@.take(0) =~= Seq::<ContactPerson>::empty());
        assert(b@ =~= b1 + contact_lines(s.contact_persons@.take(0)));
        while i < s.contact_persons.len()
            invariant
                i <= s.contact_persons@.len(),
                b@ == b1 + contact_lines(s.contact_persons@.take(i as int)),
            decreases s.contact_persons@.len() - i,
        {
            contact_line_exec(&s.contact_persons[i], b);
            i = i + 1;
            assert(s.contact_persons@.take(i as int).drop_last() =~= s.contact_persons@.take(i - 1));
            assert(b@ =~= b1 + contact_lines(s.contact_persons@.take(i as int)));
        }
        assert(s.contact_persons@.take(i as int) =~= s.contact_persons@);
    }
    assert(b@ =~= b0 + contacts_block(*s));
}

fn billing_exec(s: &SponsorForConference, b: &mut Vec<char>)
    ensures
        final(b)@ == old(b)@ + billing_block(*s),
{
    let ghost b0 = b@;
    match &s.billing {
        Some(bl) => {
            if bl.email.is_some() || bl.reference.is_some() {
                push_str(b, "\nBilling:\n");
                push_opt_line(b, "  Email:     ", as_opt_str(&bl.email));
                push_opt_line(b, "  Reference: ", as_opt_str(&bl.reference));
            }
        },
        None => {},
    }
    assert(b@ =~= b0 + billing_block(*s));
}

fn tail_exec(s: &SponsorForConference) -> (r: Vec<char>)
    ensures
        r@ == tail_text(*s),
{
    let mut b: Vec<char> = Vec::new();
    contacts_exec(s, &mut b);
    billing_exec(s, &mut b);
    let ghost b1 = b@;
    match &s.notes {
        Some(n) => {
            if !n.as_str().is_empty() {
                push_str(&mut b, "\nNotes:\n");
                push_str(&mut b, n.as_str());
                push_str(&mut b, "\n");
            }
        },
        None => {},
    }
    assert(b@ =~= b1 + notes_block(*s));
    let ghost b2 = b@;
    if s.tags.len() > 0 {
        push_str(&mut b, "\nTags: ");
        push_chars(&mut b, &crate::text::join_strings(&s.tags, ", "));
        push_str(&mut b, "\n");
    }
    match s.activity_count {
        Some(n) => {
            push_str(&mut b, "Total activities: ");
            push_chars(&mut b, &crate::text::decimal_exec(n as u64));
            push_str(&mut b, "\n");
        },
        None => {},
    }
    assert(b@ =~= b2 + tags_count(*s));
    assert(b@ =~= tail_text(*s));
    b
}

/// The head of the detail view: name, id, stage, and the lines up to the
/// outreach count, with the follow-up date in yellow.
pub open spec fn head_parts(s: SponsorForConference) -> Seq<Part> {
    seq![
        (org_name(s), Some(Paint::Bold)),
        ("\nID:              "@ + s.id@ + "\nStatus:          "@, None),
        (s.status.spec_name(), Some(stage_paint(s.status))),
        ("\n"@ + info_text(s), None),
    ] + match s.next_follow_up_at {
        Some(f) => seq![("Next Follow-up:  "@, None), (f@, Some(Paint::Yellow)), ("\n"@, None)],
        None => seq![],
    } + match s.outreach_count {
        Some(n) => seq![("Outreach Count:  "@ + crate::text::decimal(n as nat) + "\n"@, None)],
        None => seq![],
    } + seq![(tail_text(s), None)]
}

/// The last activity's section.
pub open spec fn last_parts(s: SponsorForConference) -> Option<Seq<Part>> {
    match s.last_activity {
        Some(a) => match entry_parts(
            "\nLast Activity:\n  "@,
            a.created_at@,
            a.kind,
            a.description@,
            Some(author_text(a.created_by)),
        ) {
            Some(p) => Some(p),
            None => None,
        },
        None => Some(seq![]),
    }
}

/// The recent entries (at most the first five), one line each.
pub open spec fn recent_parts(acts: Seq<SponsorActivity>) -> Option<Seq<Part>>
    decreases acts.len(),
{
    if acts.len() == 0 {
        Some(seq![])
    } else {
        match (
            recent_parts(acts.drop_last()),
            entry_parts(
                "  "@,
                acts.last().created_at@,
                acts.last().activity_type,
                acts.last().description@,
                None,
            ),
        ) {
            (Some(a), Some(b)) => Some(a + b),
            _ => None,
        }
    }
}

/// The recent-history section, when there are entries.
pub open spec fn history_section(s: SponsorForConference) -> Option<Seq<Part>> {
    let acts = s.activities@;
    if acts.len() == 0 {
        Some(seq![])
    } else {
        let shown = if acts.len() > 5 {
            acts.take(5)
        } else {
            acts
        };
        match recent_parts(shown) {
            Some(p) => Some(
                seq![("\nRecent History:\n"@, None)] + p + if acts.len() > 5 {
                    seq![("  ... (use `history` for full log)\n"@, None)]
                } else {
                    seq![]
                },
            ),
            None => None,
        }
    }
}

/// The whole detail view; `None` where an activity's time is too short to
/// show its date.
pub open spec fn detail_parts(s: SponsorForConference) -> Option<Seq<Part>> {
    match (last_parts(s), history_section(s)) {
        (Some(l), Some(h)) => Some(head_parts(s) + l + h),
        _ => None,
    }
}

fn push_head(out: &mut Vec<Span>, s: &SponsorForConference)
    ensures
        parts_of(final(out)@) == parts_of(old(out)@) + head_parts(*s),
{
    let ghost start = parts_of(out@);
    push_span(out, org_name_exec(s), Some(Paint::Bold));
    let mut b = chars_of("\nID:              ");
    push_str(&mut b, s.id.as_str());
    push_str(&mut b, "\nStatus:          ");
    push_span(out, b, None);
    push_span(out, chars_of(s.status.name()), Some(stage_paint_of(s.status)));
    let mut c = chars_of("\n");
    push_chars(&mut c, &info_exec(s));
    push_span(out, c, None);
    let ghost s1 = parts_of(out@);
    match &s.next_follow_up_at {
        Some(f) => {
            push_span(out, chars_of("Next Follow-up:  "), None);
            push_span(out, chars_of(f.as_str()), Some(Paint::Yellow));
            push_span(out, chars_of("\n"), None);
        },
        None => {},
    }
    let ghost s2 = parts_of(out@);
    match s.outreach_count {
        Some(n) => {
            let mut d = chars_of("Outreach Count:  ");
            push_chars(&mut d, &crate::text::decimal_exec(n as u64));
            push_str(&mut d, "\n");
            push_span(out, d, None);
        },
        None => {},
    }
    push_span(out, tail_exec(s), None);
    assert(parts_of(out@) =~= start + head_parts(*s));
}

fn push_history(out: &mut Vec<Span>, s: &SponsorForConference) -> (ok: bool)
    ensures
        ok == (history_section(*s) is Some),
        ok ==> parts_of(final(out)@) == parts_of(old(out)@) + history_section(*s)->0,
{
    let ghost start = parts_of(out@);
    let n = s.activities.len();
    if n == 0 {
        assert(parts_of(out@) =~= start + Seq::<Part>::empty());
        return true;
    }
    let shown: usize = if n > 5 {
        5
    } else {
        n
    };
    let ghost acts = s.activities@;
    let ghost sh = if acts.len() > 5 {
        acts.take(5)
    } else {
        acts
    };
    assert(sh =~= acts.take(shown as int));
    push_span(out, chars_of("\nRecent History:\n"), None);
    let ghost s1 = parts_of(out@);
    let mut i: usize = 0;
    assert(acts.take(0) =~= Seq::<SponsorActivity>::empty());
    assert(parts_of(out@) =~= s1 + recent_parts(acts.take(0))->0);
    while i < shown
        invariant
            i <= shown <= acts.len(),
            acts == s.activities@,
            sh == acts.take(shown as int),
            sh == (if acts.len() > 5 {
                acts.take(5)
            } else {
                acts
            }),
            recent_parts(acts.take(i as int)) is Some,
            parts_of(out@) == s1 + recent_parts(acts.take(i as int))->0,
        decreases shown - i,
    {
        let a = &s.activities[i];
        let ghost before = parts_of(out@);
        assert(acts.take(i + 1).drop_last() =~= acts.take(i as int));
        assert(acts.take(i + 1).last() == acts[i as int]);
        let ok = push_entry(out, "  ", a.created_at.as_str(), a.activity_type, a.description.as_str(), None);
        if !ok {
            proof {
                lemma_recent_none_grows(acts, (i + 1) as int, shown as int);
                assert(acts.take(shown as int) =~= sh);
            }
            return false;
        }
        i = i + 1;
        assert(parts_of(out@) =~= s1 + recent_parts(acts.take(i as int))->0);
    }
    if n > 5 {
        push_span(out, chars_of("  ... (use `history` for full log)\n"), None);
    }
    assert(parts_of(out@) =~= start + history_section(*s)->0);
    true
}

proof fn lemma_recent_none_grows(acts: Seq<SponsorActivity>, k: int, m: int)
    requires
        0 <= k <= m <= acts.len(),
        recent_parts(acts.take(k)) is None,
    ensures
        recent_parts(acts.take(m)) is None,
    decreases m - k,
{
    if k < m {
        assert(acts.take(k + 1).drop_last() =~= acts.take(k));
        lemma_recent_none_grows(acts, k + 1, m);
    }
}

/// The spans of a sponsor's detail view; `None` where an activity's time is
/// too short to show its date.
pub fn sponsor_detail_spans(s: &SponsorForConference) -> (r: Option<Vec<Span>>)
    ensures
        match r {
            Some(out) => detail_parts(*s) == Some(parts_of(out@)),
            None => detail_parts(*s) is None,
        },
{
    let mut out: Vec<Span> = Vec::new();
    assert(parts_of(out@) =~= Seq::<Part>::empty());
    push_head(&mut out, s);
    let ghost s0 = parts_of(out@);
    match &s.last_activity {
        Some(a) => {
            let author = author_exec(&a.created_by);
            let ok = push_entry(
                &mut out,
                "\nLast Activity:\n  ",
                a.created_at.as_str(),
                a.kind,
                a.description.as_str(),
                Some(author),
            );
            if !ok {
                return None;
            }
        },
        None => {
            assert(s0 + Seq::<Part>::empty() =~= s0);
        },
    }
    let ghost s1 = parts_of(out@);
    let ok = push_history(&mut out, s);
    if !ok {
        return None;
    }
    assert(parts_of(out@) =~= head_parts(*s) + last_parts(*s)->0 + history_section(*s)->0);
    Some(out)
}

/// A sponsor's detail view, as printed; `None` where an activity's time is
/// too short to show its date.
pub fn render_sponsor_detail(s: &SponsorForConference) -> (r: Option<String>)
    ensures
        match r {
            Some(t) => detail_parts(*s) matches Some(parts) && printed(parts, t@),
            None => detail_parts(*s) is None,
        },
{
    match sponsor_detail_spans(s) {
        Some(spans) => Some(render(&spans)),
        None => None,
    }
}

/// The history view: name, id, a hint, and every entry with its author;
/// `None` where an entry's time is too short to show its date.
pub open spec fn history_parts(s: SponsorForConference) -> Option<Seq<Part>> {
    let head = seq![
        (org_name(s), Some(Paint::Bold)),
        (" - History\nID: "@ + s.id@ + "\n\n"@, None),
        ("Hint: Log new interactions with `konf admin sponsors note <ID> \"...\"`"@, Some(Paint::Dimmed)),
        ("\n\n"@, None),
    ];
    if s.activities@.len() == 0 {
        Some(head + seq![("No activities recorded yet.\n"@, None)])
    } else {
        match full_history(s.activities@) {
            Some(p) => Some(head + p),
            None => None,
        }
    }
}

/// Every entry with its author, one line each.
pub open spec fn full_history(acts: Seq<SponsorActivity>) -> Option<Seq<Part>>
    decreases acts.len(),
{
    if acts.len() == 0 {
        Some(seq![])
    } else {
        match (
            full_history(acts.drop_last()),
            entry_parts(
                seq![],
                acts.last().created_at@,
                acts.last().activity_type,
                acts.last().description@,
                Some(author_text(acts.last().created_by)),
            ),
        ) {
            (Some(a), Some(b)) => Some(a + b),
            _ => None,
        }
    }
}

proof fn lemma_full_none_grows(acts: Seq<SponsorActivity>, k: int)
    requires
        0 <= k <= acts.len(),
        full_history(acts.take(k)) is None,
    ensures
        full_history(acts) is None,
    decreases acts.len() - k,
{
    if k < acts.len() {
        assert(acts.take(k + 1).drop_last() =~= acts.take(k));
        lemma_full_none_grows(acts, k + 1);
    } else {
        assert(acts.take(k) =~= acts);
    }
}

/// The spans of a sponsor's history view.
pub fn sponsor_history_spans(s: &SponsorForConference) -> (r: Option<Vec<Span>>)
    ensures
        match r {
            Some(out) => history_parts(*s) == Some(parts_of(out@)),
            None => history_parts(*s) is None,
        },
{
    let mut out: Vec<Span> = Vec::new();
    assert(parts_of(out@) =~= Seq::<Part>::empty());
    push_span(&mut out, org_name_exec(s), Some(Paint::Bold));
    let mut b = chars_of(" - History\nID: ");
    push_str(&mut b, s.id.as_str());
    push_str(&mut b, "\n\n");
    push_span(&mut out, b, None);
    push_span(
        &mut out,
        chars_of("Hint: Log new interactions with `konf admin sponsors note <ID> \"...\"`"),
        Some(Paint::Dimmed),
    );
    push_span(&mut out, chars_of("\n\n"), None);
    let ghost head = parts_of(out@);
    if s.activities.len() == 0 {
        push_span(&mut out, chars_of("No activities recorded yet.\n"), None);
        assert(parts_of(out@) =~= history_parts(*s)->0);
        return Some(out);
    }
    let ghost acts = s.activities@;
    let mut i: usize = 0;
    assert(acts.take(0) =~= Seq::<SponsorActivity>::empty());
    assert(parts_of(out@) =~= head + full_history(acts.take(0))->0);
    while i < s.activities.len()
        invariant
            i <= acts.len(),
            acts == s.activities@,
            full_history(acts.take(i as int)) is Some,
            parts_of(out@) == head + full_history(acts.take(i as int))->0,
        decreases acts.len() - i,
    {
        let a = &s.activities[i];
        assert(acts.take(i + 1).drop_last() =~= acts.take(i as int));
        assert(acts.take(i + 1).last() == acts[i as int]);
        let author = author_exec(&a.created_by);
        let ok = push_entry(&mut out, "", a.created_at.as_str(), a.activity_type, a.description.as_str(), Some(author));
        if !ok {
            proof {
                reveal_strlit("");
                assert(""@ =~= Seq::<char>::empty());
                lemma_full_none_grows(acts, i + 1);
            }
            return None;
        }
        proof {
            reveal_strlit("");
            assert(""@ =~= Seq::<char>::empty());
        }
        i = i + 1;
        assert(parts_of(out@) =~= head + full_history(acts.take(i as int))->0);
    }
    assert(acts.take(i as int) =~= acts);
    assert(parts_of(out@) =~= history_parts(*s)->0);
    Some(out)
}

} // verus!
