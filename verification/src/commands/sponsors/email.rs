//! `konf sponsors email`: where the message comes from, which template is
//! used, what it says once filled in, and what is shown before and after
//! sending.
use vstd::prelude::*;

use super::EmailArgs;
use crate::style::{Paint, Part, Span, parts_of, push_span};
use crate::template::{pairs_view, substituted, substitute_variables, unresolved, find_unresolved_variables};
use crate::text::{
    chars_of, decimal, decimal_exec, join, join_strings, pad_right, push_chars, push_padded,
    push_str, str_eq, string_of, texts,
};
use crate::types::{EmailRecipient, SponsorEmailTemplate, TemplateLanguage, TemplateListResponse};
use crate::ui::pager::{lines_of, split_lines};
use crate::ui::{truncate, truncated};

verus! {

/// The sponsor's name as the e-mail flow shows it.
pub open spec fn sponsor_label(resp: TemplateListResponse) -> Seq<char> {
    match resp.sponsor_name {
        Some(n) => n@,
        None => "Unknown"@,
    }
}

/// The sponsor's name as the e-mail flow shows it.
pub fn sponsor_name(resp: &TemplateListResponse) -> (r: String)
    ensures
        r@ == sponsor_label(*resp),
{
    match &resp.sponsor_name {
        Some(n) => string_of(&chars_of(n.as_str())),
        None => string_of(&chars_of("Unknown")),
    }
}

/// Where the subject and body come from.
#[derive(Debug, Clone, PartialEq)]
pub enum EmailSource {
    /// The message given on the command line.
    Message,
    /// A template picked from a menu.
    Picker,
    /// The template with this slug.
    Slug(String),
    /// Neither a message nor a template was given, and no menu can be shown.
    Missing,
}

/// Where the subject and body come from: the given message first, then a
/// menu on a terminal, then the given template.
pub fn email_source(args: &EmailArgs, on_terminal: bool) -> (r: EmailSource)
    ensures
        args.message is Some ==> r == EmailSource::Message,
        args.message is None && on_terminal ==> r == EmailSource::Picker,
        args.message is None && !on_terminal && args.template is None ==> r == EmailSource::Missing,
        args.message is None && !on_terminal && args.template is Some ==> (r matches EmailSource::Slug(
            s,
        ) && s@ == args.template->0@),
{
    if args.message.is_some() {
        EmailSource::Message
    } else if on_terminal {
        EmailSource::Picker
    } else {
        match &args.template {
            Some(t) => EmailSource::Slug(string_of(&chars_of(t.as_str()))),
            None => EmailSource::Missing,
        }
    }
}

/// The subject of a message given on the command line: the given subject,
/// else one naming the sponsor.
pub fn message_subject(args: &EmailArgs, sponsor: &str) -> (r: String)
    ensures
        r@ == (match args.subject {
            Some(s) => s@,
            None => "Message to "@ + sponsor@,
        }),
{
    match &args.subject {
        Some(s) => string_of(&chars_of(s.as_str())),
        None => {
            let mut b = chars_of("Message to ");
            push_str(&mut b, sponsor);
            string_of(&b)
        },
    }
}

/// The first template with this slug.
pub fn find_template_by_slug(templates: &[SponsorEmailTemplate], slug: &str) -> (r: Option<usize>)
    ensures
        match r {
            Some(i) => i < templates@.len() && templates@[i as int].slug.current@ == slug@ && forall|
                j: int,
            | 0 <= j < i ==> templates@[j].slug.current@ != slug@,
            None => forall|j: int|
                0 <= j < templates@.len() ==> templates@[j].slug.current@ != slug@,
        },
{
    let mut i: usize = 0;
    while i < templates.len()
        invariant
            i <= templates@.len(),
            forall|j: int| 0 <= j < i ==> templates@[j].slug.current@ != slug@,
        decreases templates@.len() - i,
    {
        if str_eq(templates[i].slug.current.as_str(), slug) {
            return Some(i);
        }
        i = i + 1;
    }
    None
}

/// Where the template menu starts: at the given template, else the first
/// (templates come sorted by relevance).
pub fn picker_default(templates: &[SponsorEmailTemplate], slug: Option<&str>) -> (i: usize)
    ensures
        slug is None ==> i == 0,
        slug matches Some(s) ==> (match find_first_slug(templates@, s@) {
            Some(k) => i == k,
            None => i == 0,
        }),
{
    match slug {
        Some(s) => match find_template_by_slug(templates, s) {
            Some(k) => {
                proof {
                    lemma_find_first_slug(templates@, s@, k as int);
                }
                k
            },
            None => {
                proof {
                    lemma_find_first_slug_none(templates@, s@);
                }
                0
            },
        },
        None => 0,
    }
}

/// The position of the first template with this slug.
pub open spec fn find_first_slug(ts: Seq<SponsorEmailTemplate>, slug: Seq<char>) -> Option<nat>
    decreases ts.len(),
{
    if ts.len() == 0 {
        None
    } else if ts[0].slug.current@ == slug {
        Some(0)
    } else {
        match find_first_slug(ts.drop_first(), slug) {
            Some(k) => Some(k + 1),
            None => None,
        }
    }
}

proof fn lemma_find_first_slug(ts: Seq<SponsorEmailTemplate>, slug: Seq<char>, k: int)
    requires
        0 <= k < ts.len(),
        ts[k].slug.current@ == slug,
        forall|j: int| 0 <= j < k ==> ts[j].slug.current@ != slug,
    ensures
        find_first_slug(ts, slug) == Some(k as nat),
    decreases k,
{
    if k > 0 {
        lemma_find_first_slug(ts.drop_first(), slug, k - 1);
    }
}

proof fn lemma_find_first_slug_none(ts: Seq<SponsorEmailTemplate>, slug: Seq<char>)
    requires
        forall|j: int| 0 <= j < ts.len() ==> ts[j].slug.current@ != slug,
    ensures
        find_first_slug(ts, slug) is None,
    decreases ts.len(),
{
    if ts.len() > 0 {
        lemma_find_first_slug_none(ts.drop_first(), slug);
    }
}

/// A template's subject and body with the sponsor's variables filled in;
/// a subject given on the command line wins.
pub open spec fn resolved_subject(args: EmailArgs, t: SponsorEmailTemplate, vars: Seq<(Seq<char>, Seq<char>)>) -> Seq<char> {
    match args.subject {
        Some(s) => s@,
        None => substituted(t.subject@, vars),
    }
}

/// A template's body with the sponsor's variables filled in.
pub open spec fn resolved_body(t: SponsorEmailTemplate, vars: Seq<(Seq<char>, Seq<char>)>) -> Seq<char> {
    substituted(
        match t.body_markdown {
            Some(b) => b@,
            None => seq![],
        },
        vars,
    )
}

/// The subject and body from a template.
pub fn resolve_template(args: &EmailArgs, t: &SponsorEmailTemplate, variables: &[(String, String)]) -> (r: (String, String))
    ensures
        r.0@ == resolved_subject(*args, *t, pairs_view(variables@)),
        r.1@ == resolved_body(*t, pairs_view(variables@)),
{
    let subject = match &args.subject {
        Some(s) => string_of(&chars_of(s.as_str())),
        None => substitute_variables(t.subject.as_str(), variables),
    };
    let raw: &str = match &t.body_markdown {
        Some(b) => b.as_str(),
        None => {
            proof {
                reveal_strlit("");
            }
            ""
        },
    };
    assert(raw@ =~= (match t.body_markdown {
        Some(b) => b@,
        None => seq![],
    }));
    let body = substitute_variables(raw, variables);
    (subject, body)
}

/// The flag of a template's language.
pub open spec fn language_flag(l: TemplateLanguage) -> Seq<char> {
    match l {
        TemplateLanguage::Norwegian => "🇳🇴"@,
        TemplateLanguage::English => "🇬🇧"@,
        TemplateLanguage::Unknown => "  "@,
    }
}

/// A template as the menu lists it: language, title, category, and a star
/// for the default.
pub open spec fn template_item(t: SponsorEmailTemplate) -> Seq<char> {
    language_flag(t.language) + " "@ + pad_right(truncated(t.title@, 28), 30) + " "@ + pad_right(
        t.category.spec_name(),
        16,
    ) + if t.is_default == Some(true) {
        " ★"@
    } else {
        seq![]
    }
}

/// A template as the menu lists it.
pub fn format_template_item(t: &SponsorEmailTemplate) -> (r: String)
    ensures
        r@ == template_item(*t),
{
    let mut b: Vec<char> = match t.language {
        TemplateLanguage::Norwegian => chars_of("🇳🇴"),
        TemplateLanguage::English => chars_of("🇬🇧"),
        TemplateLanguage::Unknown => chars_of("  "),
    };
    push_str(&mut b, " ");
    let title = truncate(t.title.as_str(), 28);
    push_padded(&mut b, &chars_of(title.as_str()), 30);
    push_str(&mut b, " ");
    push_padded(&mut b, &chars_of(t.category.name()), 16);
    if t.is_default == Some(true) {
        push_str(&mut b, " ★");
    }
    assert(b@ =~= template_item(*t));
    string_of(&b)
}

/// The variables left unresolved in the subject, then in the body.
pub fn unresolved_in(subject: &str, body: &str) -> (r: Vec<String>)
    ensures
        texts(r@) == unresolved(subject@) + unresolved(body@),
{
    let mut a = find_unresolved_variables(subject);
    let b = find_unresolved_variables(body);
    let ghost av = texts(a@);
    let mut i: usize = 0;
    while i < b.len()
        invariant
            i <= b@.len(),
            texts(b@) == unresolved(body@),
            av == unresolved(subject@),
            texts(a@) == av + texts(b@).take(i as int),
        decreases b@.len() - i,
    {
        let ghost before = texts(a@);
        a.push(b[i].clone());
        i = i + 1;
        assert(texts(a@) =~= before.push(texts(b@)[i - 1]));
        assert(texts(b@).take(i as int) =~= texts(b@).take(i - 1).push(texts(b@)[i - 1]));
    }
    assert(texts(b@).take(i as int) =~= texts(b@));
    a
}

/// The warning about unresolved variables.
pub open spec fn unresolved_warning(names: Seq<Seq<char>>) -> Seq<Part> {
    seq![
        ("⚠"@, Some(Paint::Yellow)),
        (" Unresolved template variables: "@, None),
        (join(names, ", "@), Some(Paint::Yellow)),
    ]
}

/// The warning about unresolved variables, as spans.
pub fn unresolved_warning_spans(names: &[String]) -> (out: Vec<Span>)
    ensures
        parts_of(out@) == unresolved_warning(names@.map_values(|s: String| s@)),
{
    let mut out: Vec<Span> = Vec::new();
    assert(parts_of(out@) =~= Seq::<Part>::empty());
    push_span(&mut out, chars_of("⚠"), Some(Paint::Yellow));
    push_span(&mut out, chars_of(" Unresolved template variables: "), None);
    push_span(&mut out, join_strings(names, ", "), Some(Paint::Yellow));
    assert(parts_of(out@) =~= unresolved_warning(names@.map_values(|s: String| s@)));
    out
}

/// Whether unresolved variables are confirmed before going on: only when
/// sending for real from a terminal session.
pub fn asks_to_send_anyway(dry_run: bool, interactive: bool) -> (r: bool)
    ensures
        r == (!dry_run && interactive),
{
    !dry_run && interactive
}

/// A recipient as the preview lists them.
pub open spec fn recipient_text(r: EmailRecipient) -> Seq<char> {
    r.name@ + " <"@ + r.email@ + ">"@
}

/// The recipients as the preview lists them.
pub fn format_recipients(resp: &TemplateListResponse) -> (v: Vec<String>)
    ensures
        texts(v@) == resp.recipients@.map_values(|r: EmailRecipient| recipient_text(r)),
{
    let mut v: Vec<String> = Vec::new();
    let mut i: usize = 0;
    while i < resp.recipients.len()
        invariant
            i <= resp.recipients@.len(),
            texts(v@) == resp.recipients@.take(i as int).map_values(
                |r: EmailRecipient| recipient_text(r),
            ),
        decreases resp.recipients@.len() - i,
    {
        let ghost before = texts(v@);
        let r = &resp.recipients[i];
        let mut b = chars_of(r.name.as_str());
        push_str(&mut b, " <");
        push_str(&mut b, r.email.as_str());
        push_str(&mut b, ">");
        v.push(string_of(&b));
        i = i + 1;
        assert(texts(v@) =~= before.push(recipient_text(resp.recipients@[i - 1])));
        assert(resp.recipients@.take(i as int).map_values(|r: EmailRecipient| recipient_text(r))
            =~= resp.recipients@.take(i - 1).map_values(|r: EmailRecipient| recipient_text(r)).push(
            recipient_text(resp.recipients@[i - 1]),
        ));
    }
    assert(resp.recipients@.take(i as int) =~= resp.recipients@);
    v
}

/// The rule around the preview.
pub open spec fn preview_rule() -> Seq<char> {
    "───────────────────"@
}

/// The body lines of the preview, indented.
pub open spec fn body_parts(lines: Seq<Seq<char>>) -> Seq<Part>
    decreases lines.len(),
{
    if lines.len() == 0 {
        seq![]
    } else {
        body_parts(lines.drop_last()) + seq![("  "@ + lines.last() + "\n"@, None)]
    }
}

/// The preview of an e-mail: recipients, subject, and the body between rules.
pub open spec fn preview_parts(subject: Seq<char>, body: Seq<char>, recipients: Seq<Seq<char>>) -> Seq<Part> {
    seq![
        ("\n"@, None),
        ("── Email Preview ──"@, Some(Paint::Dimmed)),
        ("\n  "@, None),
        ("To:"@, Some(Paint::Bold)),
        (" "@ + join(recipients, ", "@) + "\n  "@, None),
        ("Subject:"@, Some(Paint::Bold)),
        (" "@ + subject + "\n"@, None),
        (preview_rule(), Some(Paint::Dimmed)),
        ("\n"@, None),
    ] + body_parts(split_lines(body)) + seq![
        (preview_rule(), Some(Paint::Dimmed)),
        ("\n\n"@, None),
    ]
}

/// The preview of an e-mail, as spans.
pub fn preview_spans(subject: &str, body: &str, recipients: &[String]) -> (out: Vec<Span>)
    ensures
        parts_of(out@) == preview_parts(subject@, body@, texts(recipients@)),
{
    let mut out: Vec<Span> = Vec::new();
    assert(parts_of(out@) =~= Seq::<Part>::empty());
    push_span(&mut out, chars_of("\n"), None);
    push_span(&mut out, chars_of("── Email Preview ──"), Some(Paint::Dimmed));
    push_span(&mut out, chars_of("\n  "), None);
    push_span(&mut out, chars_of("To:"), Some(Paint::Bold));
    let mut to = chars_of(" ");
    push_chars(&mut to, &join_strings(recipients, ", "));
    push_str(&mut to, "\n  ");
    push_span(&mut out, to, None);
    push_span(&mut out, chars_of("Subject:"), Some(Paint::Bold));
    let mut subj = chars_of(" ");
    push_str(&mut subj, subject);
    push_str(&mut subj, "\n");
    push_span(&mut out, subj, None);
    push_span(&mut out, chars_of("───────────────────"), Some(Paint::Dimmed));
    push_span(&mut out, chars_of("\n"), None);
    let ghost head = parts_of(out@);
    let lines = lines_of(body);
    let ghost lv = texts(lines@);
    let mut i: usize = 0;
    assert(lv.take(0) =~= Seq::<Seq<char>>::empty());
    while i < lines.len()
        invariant
            i <= lines@.len(),
            lv == texts(lines@),
            parts_of(out@) == head + body_parts(lv.take(i as int)),
        decreases lines@.len() - i,
    {
        let mut l = chars_of("  ");
        push_str(&mut l, lines[i].as_str());
        push_str(&mut l, "\n");
        push_span(&mut out, l, None);
        i = i + 1;
        assert(lv.take(i as int).drop_last() =~= lv.take(i - 1));
        assert(parts_of(out@) =~= head + body_parts(lv.take(i as int)));
    }
    assert(lv.take(i as int) =~= lv);
    push_span(&mut out, chars_of("───────────────────"), Some(Paint::Dimmed));
    push_span(&mut out, chars_of("\n\n"), None);
    assert(lv == split_lines(body@));
    assert(parts_of(out@) =~= preview_parts(subject@, body@, texts(recipients@)));
    out
}

/// What to do once the preview was seen.
#[derive(Debug, Clone, Copy, PartialEq, Eq, Structural)]
pub enum PreviewChoice {
    Send,
    Edit,
    Cancel,
}

/// The choice picked from "Send", "Edit", "Cancel".
pub fn preview_choice(i: usize) -> (c: PreviewChoice)
    ensures
        c == (if i == 0 {
            PreviewChoice::Send
        } else if i == 1 {
            PreviewChoice::Edit
        } else {
            PreviewChoice::Cancel
        }),
{
    if i == 0 {
        PreviewChoice::Send
    } else if i == 1 {
        PreviewChoice::Edit
    } else {
        PreviewChoice::Cancel
    }
}

/// The confirmation after sending.
pub open spec fn sent_parts(count: Option<u32>, recipients: Seq<Seq<char>>) -> Seq<Part> {
    seq![
        ("✓"@, Some(Paint::GreenBold)),
        (" Email sent to "@ + decimal(
            match count {
                Some(n) => n as nat,
                None => 0,
            },
        ) + " recipient(s): "@ + join(recipients, ", "@), None),
    ]
}

/// The confirmation after sending, as spans.
pub fn sent_spans(count: Option<u32>, recipients: &[String]) -> (out: Vec<Span>)
    ensures
        parts_of(out@) == sent_parts(count, texts(recipients@)),
{
    let mut out: Vec<Span> = Vec::new();
    assert(parts_of(out@) =~= Seq::<Part>::empty());
    push_span(&mut out, chars_of("✓"), Some(Paint::GreenBold));
    let n: u64 = match count {
        Some(n) => n as u64,
        None => 0,
    };
    let mut b = chars_of(" Email sent to ");
    push_chars(&mut b, &decimal_exec(n));
    push_str(&mut b, " recipient(s): ");
    push_chars(&mut b, &join_strings(recipients, ", "));
    push_span(&mut out, b, None);
    assert(parts_of(out@) =~= sent_parts(count, texts(recipients@)));
    out
}

} // verus!
