//! `konf messages`: the inbox's arguments, its rows, its order, and the
//! decisions of the interactive inbox.
use vstd::prelude::*;

use crate::sort::{KeyView, SortKey, apply_permutation, is_stable_sorted, key_views, stable_sort_indices};
use crate::style::{Paint, Part, Span, parts_of, push_span};
use crate::text::{
    all_blank, chars_of, decimal, decimal_exec, is_blank, pad_right, push_chars, push_padded,
    push_str, string_of,
};
use crate::types::{ConversationMessage, ConversationParticipant, ConversationRow, ProposalStatus};
use crate::ui::{Key, truncate, truncated};

verus! {

/// `konf messages`.
#[derive(Debug, Clone, PartialEq)]
pub struct MessageArgs {
    pub command: MessageCommand,
}

/// The `konf messages` subcommands.
#[derive(Debug, Clone, PartialEq)]
pub enum MessageCommand {
    /// List conversations in the inbox.
    List(ListArgs),
    /// Get a conversation and its messages.
    Get { id: String, json: bool },
    /// Reply to an existing conversation.
    Reply { id: String, message: String },
    /// Start a new conversation with a speaker.
    New { speaker: String, subject: String, message: String },
    /// Change the status of a conversation; an agent must confirm with `yes`.
    Status { id: String, status: ConversationStatusEnum, yes: bool },
    /// Assign a conversation to an organizer (none to unassign).
    Assign { id: String, to: Option<String>, yes: bool },
    /// Toggle the global archive state of a conversation.
    Archive { id: String, unarchive: bool, yes: bool },
}

/// The inbox views.
#[derive(Debug, Clone, Copy, PartialEq, Eq, Structural)]
pub enum InboxView {
    Active,
    NeedsReply,
    MyTeams,
    Unassigned,
    Mine,
    Resolved,
    Archived,
    All,
}

impl Default for InboxView {
    fn default() -> (v: Self)
        ensures
            v == InboxView::Active,
    {
        InboxView::Active
    }
}

impl InboxView {
    /// The view's name as `{:?}` prints it.
    pub open spec fn spec_debug_name(self) -> Seq<char> {
        match self {
            InboxView::Active => "Active"@,
            InboxView::NeedsReply => "NeedsReply"@,
            InboxView::MyTeams => "MyTeams"@,
            InboxView::Unassigned => "Unassigned"@,
            InboxView::Mine => "Mine"@,
            InboxView::Resolved => "Resolved"@,
            InboxView::Archived => "Archived"@,
            InboxView::All => "All"@,
        }
    }

    /// The view's name as `{:?}` prints it.
    pub fn debug_name(self) -> (s: &'static str)
        ensures
            s@ == self.spec_debug_name(),
    {
        match self {
            InboxView::Active => "Active",
            InboxView::NeedsReply => "NeedsReply",
            InboxView::MyTeams => "MyTeams",
            InboxView::Unassigned => "Unassigned",
            InboxView::Mine => "Mine",
            InboxView::Resolved => "Resolved",
            InboxView::Archived => "Archived",
            InboxView::All => "All",
        }
    }

    /// The view's name on the wire and on the command line (kebab-case).
    pub open spec fn spec_wire(self) -> Seq<char> {
        match self {
            InboxView::Active => "active"@,
            InboxView::NeedsReply => "needs-reply"@,
            InboxView::MyTeams => "my-teams"@,
            InboxView::Unassigned => "unassigned"@,
            InboxView::Mine => "mine"@,
            InboxView::Resolved => "resolved"@,
            InboxView::Archived => "archived"@,
            InboxView::All => "all"@,
        }
    }

    /// The view's name on the wire and on the command line (kebab-case).
    pub fn wire(self) -> (s: &'static str)
        ensures
            s@ == self.spec_wire(),
    {
        match self {
            InboxView::Active => "active",
            InboxView::NeedsReply => "needs-reply",
            InboxView::MyTeams => "my-teams",
            InboxView::Unassigned => "unassigned",
            InboxView::Mine => "mine",
            InboxView::Resolved => "resolved",
            InboxView::Archived => "archived",
            InboxView::All => "all",
        }
    }
}

/// A conversation's status as set from the command line.
#[derive(Debug, Clone, Copy, PartialEq, Eq, Structural)]
pub enum ConversationStatusEnum {
    Open,
    Resolved,
}

impl ConversationStatusEnum {
    /// The status on the wire.
    pub fn wire(self) -> (s: &'static str)
        ensures
            s@ == (match self {
                ConversationStatusEnum::Open => "open"@,
                ConversationStatusEnum::Resolved => "resolved"@,
            }),
    {
        match self {
            ConversationStatusEnum::Open => "open",
            ConversationStatusEnum::Resolved => "resolved",
        }
    }

    /// The status as `{:?}` prints it.
    pub fn debug_name(self) -> (s: &'static str)
        ensures
            s@ == (match self {
                ConversationStatusEnum::Open => "Open"@,
                ConversationStatusEnum::Resolved => "Resolved"@,
            }),
    {
        match self {
            ConversationStatusEnum::Open => "Open",
            ConversationStatusEnum::Resolved => "Resolved",
        }
    }
}

/// `konf messages list`.
#[derive(Debug, Clone, PartialEq)]
pub struct ListArgs {
    /// Inbox view to use.
    pub view: InboxView,
    /// Pagination cursor.
    pub cursor: Option<String>,
    /// Output minimal JSON fields.
    pub compact: bool,
    /// Limit the number of items returned.
    pub limit: Option<usize>,
    /// Output as JSON.
    pub json: bool,
}

impl Default for ListArgs {
    fn default() -> (a: Self)
        ensures
            a.view == InboxView::Active,
            a.cursor is None,
            !a.compact,
            a.limit is None,
            !a.json,
    {
        ListArgs { view: InboxView::Active, cursor: None, compact: false, limit: None, json: false }
    }
}

// ── Rows ────────────────────────────────────────────────────────────────────
/// How a conversation's state reads in a row.
pub open spec fn row_status(c: ConversationRow) -> Seq<char> {
    if c.status@ == "resolved"@ {
        "Resolved"@
    } else if c.needs_reply {
        "Needs Reply"@
    } else {
        "Open"@
    }
}

/// The unread count as a row shows it, empty when nothing is unread.
pub open spec fn unread_text(n: nat) -> Seq<char> {
    if n > 0 {
        decimal(n) + " unread"@
    } else {
        seq![]
    }
}

/// The subject a row shows.
pub open spec fn row_subject(c: ConversationRow) -> Seq<char> {
    match c.subject {
        Some(s) => s@,
        None => "No subject"@,
    }
}

/// The counterpart a row shows.
pub open spec fn row_counterpart(c: ConversationRow) -> Seq<char> {
    match c.counterpart {
        Some(cp) => cp.name@,
        None => "Unknown"@,
    }
}

/// A conversation as one row: id, subject, counterpart, status, unread count.
pub open spec fn row_text(c: ConversationRow) -> Seq<char> {
    pad_right(c.id@, 25) + " | "@ + pad_right(truncated(row_subject(c), 50), 50) + " | "@
        + pad_right(truncated(row_counterpart(c), 20), 20) + " | "@ + pad_right(row_status(c), 12)
        + " "@ + unread_text(c.unread_count as nat)
}

/// A conversation as one row of the plain inbox list.
pub fn format_item(convo: &ConversationRow) -> (r: String)
    ensures
        r@ == row_text(*convo),
{
    let subject: &str = match &convo.subject {
        Some(s) => s.as_str(),
        None => "No subject",
    };
    let counterpart: &str = match &convo.counterpart {
        Some(c) => c.name.as_str(),
        None => "Unknown",
    };
    let status: &str = if crate::text::str_eq(convo.status.as_str(), "resolved") {
        "Resolved"
    } else if convo.needs_reply {
        "Needs Reply"
    } else {
        "Open"
    };
    let mut out: Vec<char> = Vec::new();
    push_padded(&mut out, &chars_of(convo.id.as_str()), 25);
    push_str(&mut out, " | ");
    let ts = truncate(subject, 50);
    push_padded(&mut out, &chars_of(ts.as_str()), 50);
    push_str(&mut out, " | ");
    let tc = truncate(counterpart, 20);
    push_padded(&mut out, &chars_of(tc.as_str()), 20);
    push_str(&mut out, " | ");
    push_padded(&mut out, &chars_of(status), 12);
    push_str(&mut out, " ");
    if convo.unread_count > 0 {
        let n = decimal_exec(convo.unread_count as u64);
        push_chars(&mut out, &n);
        push_str(&mut out, " unread");
    }
    assert(out@ =~= row_text(*convo));
    string_of(&out)
}

/// The header of the plain inbox list.
pub open spec fn header_parts() -> Seq<Part> {
    seq![
        (pad_right("ID"@, 25), Some(Paint::BoldCyan)),
        (" | "@, None),
        (pad_right("SUBJECT"@, 50), Some(Paint::BoldCyan)),
        (" | "@, None),
        (pad_right("COUNTERPART"@, 20), Some(Paint::BoldCyan)),
        (" | "@, None),
        ("STATUS"@, Some(Paint::BoldCyan)),
    ]
}

fn padded(t: &str, width: usize) -> (r: Vec<char>)
    ensures
        r@ == pad_right(t@, width as nat),
{
    let mut b: Vec<char> = Vec::new();
    push_padded(&mut b, &chars_of(t), width);
    assert(b@ =~= pad_right(t@, width as nat));
    b
}

/// The header of the plain inbox list, as spans.
pub fn header_spans() -> (out: Vec<Span>)
    ensures
        parts_of(out@) == header_parts(),
{
    let mut out: Vec<Span> = Vec::new();
    assert(parts_of(out@) =~= Seq::<Part>::empty());
    push_span(&mut out, padded("ID", 25), Some(Paint::BoldCyan));
    push_span(&mut out, chars_of(" | "), None);
    push_span(&mut out, padded("SUBJECT", 50), Some(Paint::BoldCyan));
    push_span(&mut out, chars_of(" | "), None);
    push_span(&mut out, padded("COUNTERPART", 20), Some(Paint::BoldCyan));
    push_span(&mut out, chars_of(" | "), None);
    push_span(&mut out, chars_of("STATUS"), Some(Paint::BoldCyan));
    assert(parts_of(out@) =~= header_parts());
    out
}

/// What `console::strip_ansi_codes` gives for a text.
pub uninterp spec fn ansi_stripped(s: Seq<char>) -> Seq<char>;

/// `console::strip_ansi_codes`: the text without the ANSI escape sequences
/// in it. Claimed: the result is the name `ansi_stripped` of the text, and a
/// text with neither of the characters that start a sequence (`ESC`,
/// `U+009B`) comes back unchanged. Which sequences are removed otherwise is
/// the crate's parser and is not stated.
#[verifier::external_body]
fn strip_ansi(s: &str) -> (r: String)
    ensures
        r@ == ansi_stripped(s@),
        !s@.contains('\u{1b}') && !s@.contains('\u{9b}') ==> r@ == s@,
{
    console::strip_ansi_codes(s).into_owned()
}

/// An optional text, or `d` when there is none.
pub open spec fn or_default(o: Option<Seq<char>>, d: Seq<char>) -> Seq<char> {
    match o {
        Some(s) => s,
        None => d,
    }
}

/// One participant line of a thread: the name (or "Unknown") without
/// escape codes, then "(Organizer)" dimmed for an organizer.
pub open spec fn participant_parts(p: ConversationParticipant) -> Seq<Part> {
    seq![
        ("  - "@, None),
        (ansi_stripped(or_default(opt_chars(p.name), "Unknown"@)), None),
        (" "@, None),
        (if p.is_organizer { "(Organizer)"@ } else { Seq::empty() }, Some(Paint::Dimmed)),
        ("\n"@, None),
    ]
}

/// The participant lines, in order.
pub open spec fn participants_parts(ps: Seq<ConversationParticipant>) -> Seq<Part>
    decreases ps.len(),
{
    if ps.len() == 0 {
        seq![]
    } else {
        participants_parts(ps.drop_last()) + participant_parts(ps.last())
    }
}

/// One message of a thread: the author (or "Unknown") and the date, then the
/// body, author and body without escape codes.
pub open spec fn message_parts(m: ConversationMessage) -> Seq<Part> {
    seq![
        (ansi_stripped(or_default(opt_chars(m.author_name), "Unknown"@)), Some(Paint::BoldBlue)),
        (" ["@, None),
        (m.created_at@, Some(Paint::Dimmed)),
        ("]\n"@, None),
        (ansi_stripped(m.body@), None),
        ("\n\n"@, None),
    ]
}

/// The messages, newest (last) first.
pub open spec fn newest_first_parts(ms: Seq<ConversationMessage>) -> Seq<Part>
    decreases ms.len(),
{
    if ms.len() == 0 {
        seq![]
    } else {
        newest_first_parts(ms.drop_first()) + message_parts(ms.first())
    }
}

/// A thread as `konf messages get` prints it: the subject (or "No subject")
/// and id, the participants, then the messages newest first.
pub open spec fn thread_parts(
    subject: Option<Seq<char>>,
    id: Seq<char>,
    ps: Seq<ConversationParticipant>,
    ms: Seq<ConversationMessage>,
) -> Seq<Part> {
    seq![
        ("Thread:"@, Some(Paint::BoldCyan)),
        (" "@, None),
        (ansi_stripped(or_default(subject, "No subject"@)), Some(Paint::Bold)),
        ("\n"@, None),
        ("ID: "@ + id, Some(Paint::Dimmed)),
        ("\n"@, None),
        ("Participants:"@, Some(Paint::BoldCyan)),
        ("\n"@, None),
    ] + participants_parts(ps) + seq![
        ("\n"@, None),
        ("Messages:"@, Some(Paint::BoldCyan)),
        ("\n\n"@, None),
    ] + newest_first_parts(ms)
}

fn stripped_or(o: &Option<String>, d: &str) -> (r: Vec<char>)
    ensures
        r@ == ansi_stripped(or_default(opt_chars(*o), d@)),
{
    match o {
        Some(s) => chars_of(strip_ansi(s.as_str()).as_str()),
        None => chars_of(strip_ansi(d).as_str()),
    }
}

/// A thread as `konf messages get` prints it, as spans.
pub fn thread_view_spans(
    subject: Option<&str>,
    id: &str,
    participants: &[ConversationParticipant],
    messages: &[ConversationMessage],
) -> (out: Vec<Span>)
    ensures
        parts_of(out@) == thread_parts(
            match subject {
                Some(s) => Some(s@),
                None => None,
            },
            id@,
            participants@,
            messages@,
        ),
{
    let ghost subj = match subject {
        Some(s) => Some(s@),
        None => None::<Seq<char>>,
    };
    let mut out: Vec<Span> = Vec::new();
    assert(parts_of(out@) =~= Seq::<Part>::empty());
    push_span(&mut out, chars_of("Thread:"), Some(Paint::BoldCyan));
    push_span(&mut out, chars_of(" "), None);
    let subject_text = match subject {
        Some(s) => strip_ansi(s),
        None => strip_ansi("No subject"),
    };
    push_span(&mut out, chars_of(subject_text.as_str()), Some(Paint::Bold));
    push_span(&mut out, chars_of("\n"), None);
    let mut idl = chars_of("ID: ");
    push_str(&mut idl, id);
    push_span(&mut out, idl, Some(Paint::Dimmed));
    push_span(&mut out, chars_of("\n"), None);
    push_span(&mut out, chars_of("Participants:"), Some(Paint::BoldCyan));
    push_span(&mut out, chars_of("\n"), None);
    let ghost head = parts_of(out@);
    assert(head =~= seq![
        ("Thread:"@, Some(Paint::BoldCyan)),
        (" "@, None),
        (ansi_stripped(or_default(subj, "No subject"@)), Some(Paint::Bold)),
        ("\n"@, None),
        ("ID: "@ + id@, Some(Paint::Dimmed)),
        ("\n"@, None),
        ("Participants:"@, Some(Paint::BoldCyan)),
        ("\n"@, None),
    ]);
    let mut i: usize = 0;
    while i < participants.len()
        invariant
            i <= participants@.len(),
            parts_of(out@) == head + participants_parts(participants@.take(i as int)),
        decreases participants@.len() - i,
    {
        let p = &participants[i];
        let ghost before = parts_of(out@);
        push_span(&mut out, chars_of("  - "), None);
        push_span(&mut out, stripped_or(&p.name, "Unknown"), None);
        push_span(&mut out, chars_of(" "), None);
        if p.is_organizer {
            push_span(&mut out, chars_of("(Organizer)"), Some(Paint::Dimmed));
        } else {
            push_span(&mut out, Vec::new(), Some(Paint::Dimmed));
        }
        push_span(&mut out, chars_of("\n"), None);
        assert(participants@.take(i + 1).drop_last() =~= participants@.take(i as int));
        assert(parts_of(out@) =~= before + participant_parts(participants@[i as int]));
        i = i + 1;
    }
    assert(participants@.take(i as int) =~= participants@);
    let ghost mid = parts_of(out@);
    push_span(&mut out, chars_of("\n"), None);
    push_span(&mut out, chars_of("Messages:"), Some(Paint::BoldCyan));
    push_span(&mut out, chars_of("\n\n"), None);
    let ghost top = parts_of(out@);
    assert(top =~= mid + seq![
        ("\n"@, None),
        ("Messages:"@, Some(Paint::BoldCyan)),
        ("\n\n"@, None),
    ]);
    let mut j: usize = messages.len();
    assert(messages@.subrange(j as int, messages@.len() as int) =~= Seq::<ConversationMessage>::empty());
    assert(top + newest_first_parts(Seq::<ConversationMessage>::empty()) =~= top);
    while j > 0
        invariant
            j <= messages@.len(),
            parts_of(out@) == top + newest_first_parts(
                messages@.subrange(j as int, messages@.len() as int),
            ),
        decreases j,
    {
        let m = &messages[j - 1];
        let ghost before = parts_of(out@);
        push_span(&mut out, stripped_or(&m.author_name, "Unknown"), Some(Paint::BoldBlue));
        push_span(&mut out, chars_of(" ["), None);
        push_span(&mut out, chars_of(m.created_at.as_str()), Some(Paint::Dimmed));
        push_span(&mut out, chars_of("]\n"), None);
        push_span(&mut out, chars_of(strip_ansi(m.body.as_str()).as_str()), None);
        push_span(&mut out, chars_of("\n\n"), None);
        let ghost rest = messages@.subrange(j - 1, messages@.len() as int);
        assert(rest.drop_first() =~= messages@.subrange(j as int, messages@.len() as int));
        assert(rest.first() == messages@[j - 1]);
        assert(parts_of(out@) =~= before + message_parts(messages@[j - 1]));
        j = j - 1;
    }
    assert(messages@.subrange(0, messages@.len() as int) =~= messages@);
    out
}

/// How a piece of the interactive inbox is styled.
#[derive(Debug, Clone, Copy, PartialEq, Eq, Structural)]
pub enum Tone {
    Plain,
    /// Bold cyan.
    Heading,
    /// Dark grey.
    Muted,
    /// Magenta.
    Label,
    /// Yellow.
    Notice,
    /// Bold blue.
    Author,
    /// Bold red.
    Alert,
    /// A rule across the whole pane; its text is empty.
    Rule,
}

/// A piece of text of the interactive inbox with its tone.
#[derive(Debug, Clone, PartialEq)]
pub struct ScreenSpan {
    pub text: Vec<char>,
    pub tone: Tone,
}

impl View for ScreenSpan {
    type V = (Seq<char>, Tone);

    open spec fn view(&self) -> (Seq<char>, Tone) {
        (self.text@, self.tone)
    }
}

/// A screen line by value.
pub open spec fn line_view(l: Vec<ScreenSpan>) -> Seq<(Seq<char>, Tone)> {
    l@.map_values(|s: ScreenSpan| s@)
}

/// Screen lines by value.
pub open spec fn lines_view(ls: Seq<Vec<ScreenSpan>>) -> Seq<Seq<(Seq<char>, Tone)>> {
    ls.map_values(|l: Vec<ScreenSpan>| line_view(l))
}

/// The tone of a conversation's subject in the list: red and bold while
/// unread, yellow while awaiting a reply, grey once resolved.
pub open spec fn row_tone(c: ConversationRow) -> Tone {
    if c.unread_count > 0 {
        Tone::Alert
    } else if c.needs_reply {
        Tone::Notice
    } else if c.status@ == "resolved"@ {
        Tone::Muted
    } else {
        Tone::Plain
    }
}

/// The two lines of a conversation in the list: its subject (or "No
/// subject") cut to 30 characters, then the counterpart (or "Unknown") and
/// the unread count when there is one.
pub open spec fn list_item_lines(c: ConversationRow) -> Seq<Seq<(Seq<char>, Tone)>> {
    seq![
        seq![(truncated(or_default(opt_chars(c.subject), "No subject"@), 30), row_tone(c))],
        seq![
            (match c.counterpart {
                Some(cp) => cp.name@,
                None => "Unknown"@,
            } + " | "@, Tone::Plain),
            (if c.unread_count > 0 {
                decimal(c.unread_count as nat) + " unread"@
            } else {
                Seq::empty()
            }, Tone::Plain),
        ],
    ]
}

fn status_is_resolved(s: &str) -> (b: bool)
    ensures
        b == (s@ == "resolved"@),
{
    crate::text::str_eq(s, "resolved")
}

/// The two lines of a conversation in the interactive list.
pub fn list_item_spans(c: &ConversationRow) -> (r: Vec<Vec<ScreenSpan>>)
    ensures
        lines_view(r@) == list_item_lines(*c),
{
    let tone = if c.unread_count > 0 {
        Tone::Alert
    } else if c.needs_reply {
        Tone::Notice
    } else if status_is_resolved(c.status.as_str()) {
        Tone::Muted
    } else {
        Tone::Plain
    };
    let subject = match &c.subject {
        Some(s) => truncate(s.as_str(), 30),
        None => truncate("No subject", 30),
    };
    let mut first: Vec<ScreenSpan> = Vec::new();
    first.push(ScreenSpan { text: chars_of(subject.as_str()), tone });
    let mut who = match &c.counterpart {
        Some(cp) => chars_of(cp.name.as_str()),
        None => chars_of("Unknown"),
    };
    push_str(&mut who, " | ");
    let mut unread: Vec<char> = Vec::new();
    if c.unread_count > 0 {
        unread = decimal_exec(c.unread_count as u64);
        push_str(&mut unread, " unread");
    }
    let mut second: Vec<ScreenSpan> = Vec::new();
    second.push(ScreenSpan { text: who, tone: Tone::Plain });
    second.push(ScreenSpan { text: unread, tone: Tone::Plain });
    let mut r: Vec<Vec<ScreenSpan>> = Vec::new();
    r.push(first);
    r.push(second);
    assert(line_view(r@[0]) =~= list_item_lines(*c)[0]);
    assert(line_view(r@[1]) =~= list_item_lines(*c)[1]);
    assert(lines_view(r@) =~= list_item_lines(*c));
    r
}

/// A rule line.
pub open spec fn rule_line() -> Seq<(Seq<char>, Tone)> {
    seq![(Seq::empty(), Tone::Rule)]
}

/// The participant names (or "Unknown"), each followed by ", ".
pub open spec fn names_joined(ps: Seq<ConversationParticipant>) -> Seq<char>
    decreases ps.len(),
{
    if ps.len() == 0 {
        seq![]
    } else {
        names_joined(ps.drop_last()) + or_default(opt_chars(ps.last().name), "Unknown"@) + ", "@
    }
}

/// One message in the thread pane: author (or "Unknown") and date, the body
/// line by line, then an empty line.
pub open spec fn pane_message(m: ConversationMessage) -> Seq<Seq<(Seq<char>, Tone)>> {
    seq![
        seq![
            (or_default(opt_chars(m.author_name), "Unknown"@), Tone::Author),
            (" ["@ + m.created_at@ + "]"@, Tone::Muted),
        ],
    ] + crate::ui::pager::split_lines(m.body@).map_values(
        |l: Seq<char>| seq![(l, Tone::Plain)],
    ) + seq![seq![]]
}

/// The messages in the thread pane, newest (last) first.
pub open spec fn pane_messages(ms: Seq<ConversationMessage>) -> Seq<Seq<(Seq<char>, Tone)>>
    decreases ms.len(),
{
    if ms.len() == 0 {
        seq![]
    } else {
        pane_messages(ms.drop_first()) + pane_message(ms.first())
    }
}

/// The thread pane of the interactive inbox: subject (or "No subject") and
/// id, the proposal's title and status when the thread has one, the
/// participants, the messages newest first, and the reply hint.
pub open spec fn thread_pane_lines(
    subject: Option<Seq<char>>,
    id: Seq<char>,
    proposal: Option<(Seq<char>, ProposalStatus)>,
    ps: Seq<ConversationParticipant>,
    ms: Seq<ConversationMessage>,
) -> Seq<Seq<(Seq<char>, Tone)>> {
    seq![
        seq![(or_default(subject, "No subject"@), Tone::Heading)],
        seq![("ID: "@ + id, Tone::Muted)],
        seq![],
    ] + match proposal {
        Some((t, st)) => seq![
            seq![
                ("Proposal: "@, Tone::Label),
                (t, Tone::Plain),
                (" ["@ + st.spec_label() + "]"@, Tone::Notice),
            ],
            seq![],
        ],
        None => seq![],
    } + seq![seq![("Participants: "@ + names_joined(ps), Tone::Notice)], rule_line(), seq![]]
        + pane_messages(ms) + seq![rule_line(), seq![("Press 'r' to reply"@, Tone::Muted)]]
}

fn one_span(text: Vec<char>, tone: Tone) -> (r: Vec<ScreenSpan>)
    ensures
        line_view(r) == seq![(text@, tone)],
{
    let mut v: Vec<ScreenSpan> = Vec::new();
    v.push(ScreenSpan { text, tone });
    assert(line_view(v) =~= seq![(text@, tone)]);
    v
}

fn empty_line() -> (r: Vec<ScreenSpan>)
    ensures
        line_view(r) == Seq::<(Seq<char>, Tone)>::empty(),
{
    let v: Vec<ScreenSpan> = Vec::new();
    assert(line_view(v) =~= Seq::<(Seq<char>, Tone)>::empty());
    v
}

fn push_line(out: &mut Vec<Vec<ScreenSpan>>, line: Vec<ScreenSpan>)
    ensures
        lines_view(final(out)@) == lines_view(old(out)@).push(line_view(line)),
{
    let ghost before = out@;
    out.push(line);
    assert(lines_view(out@) =~= lines_view(before).push(line_view(line)));
}

/// The thread pane of the interactive inbox, line by line.
pub fn thread_pane_spans(
    subject: Option<&str>,
    id: &str,
    proposal: Option<(&str, ProposalStatus)>,
    participants: &[ConversationParticipant],
    messages: &[ConversationMessage],
) -> (out: Vec<Vec<ScreenSpan>>)
    ensures
        lines_view(out@) == thread_pane_lines(
            match subject {
                Some(s) => Some(s@),
                None => None,
            },
            id@,
            match proposal {
                Some((t, st)) => Some((t@, st)),
                None => None,
            },
            participants@,
            messages@,
        ),
{
    let ghost subj = match subject {
        Some(s) => Some(s@),
        None => None::<Seq<char>>,
    };
    let ghost prop = match proposal {
        Some((t, st)) => Some((t@, st)),
        None => None::<(Seq<char>, ProposalStatus)>,
    };
    let mut out: Vec<Vec<ScreenSpan>> = Vec::new();
    assert(lines_view(out@) =~= Seq::<Seq<(Seq<char>, Tone)>>::empty());
    let subject_text = match subject {
        Some(s) => chars_of(s),
        None => chars_of("No subject"),
    };
    push_line(&mut out, one_span(subject_text, Tone::Heading));
    let mut idl = chars_of("ID: ");
    push_str(&mut idl, id);
    push_line(&mut out, one_span(idl, Tone::Muted));
    push_line(&mut out, empty_line());
    let ghost after_head = lines_view(out@);
    match proposal {
        Some((t, st)) => {
            let mut line: Vec<ScreenSpan> = Vec::new();
            line.push(ScreenSpan { text: chars_of("Proposal: "), tone: Tone::Label });
            line.push(ScreenSpan { text: chars_of(t), tone: Tone::Plain });
            let mut tag = chars_of(" [");
            push_str(&mut tag, st.label());
            push_str(&mut tag, "]");
            line.push(ScreenSpan { text: tag, tone: Tone::Notice });
            assert(line_view(line) =~= seq![
                ("Proposal: "@, Tone::Label),
                (t@, Tone::Plain),
                (" ["@ + st.spec_label() + "]"@, Tone::Notice),
            ]);
            push_line(&mut out, line);
            push_line(&mut out, empty_line());
        },
        None => {},
    }
    let ghost after_prop = lines_view(out@);
    let mut names = chars_of("Participants: ");
    let ghost names_start = names@;
    let mut i: usize = 0;
    while i < participants.len()
        invariant
            i <= participants@.len(),
            names_start == "Participants: "@,
            names@ == names_start + names_joined(participants@.take(i as int)),
        decreases participants@.len() - i,
    {
        match &participants[i].name {
            Some(n) => push_str(&mut names, n.as_str()),
            None => push_str(&mut names, "Unknown"),
        }
        push_str(&mut names, ", ");
        assert(participants@.take(i + 1).drop_last() =~= participants@.take(i as int));
        i = i + 1;
    }
    assert(participants@.take(i as int) =~= participants@);
    push_line(&mut out, one_span(names, Tone::Notice));
    push_line(&mut out, one_span(Vec::new(), Tone::Rule));
    push_line(&mut out, empty_line());
    assert(seq![(Seq::<char>::empty(), Tone::Rule)] =~= rule_line());
    let ghost top = lines_view(out@);
    let mut j: usize = messages.len();
    assert(messages@.subrange(j as int, messages@.len() as int) =~= Seq::<ConversationMessage>::empty());
    assert(top + pane_messages(Seq::<ConversationMessage>::empty()) =~= top);
    while j > 0
        invariant
            j <= messages@.len(),
            lines_view(out@) == top + pane_messages(
                messages@.subrange(j as int, messages@.len() as int),
            ),
        decreases j,
    {
        let m = &messages[j - 1];
        let ghost before = lines_view(out@);
        let mut head: Vec<ScreenSpan> = Vec::new();
        let author = match &m.author_name {
            Some(a) => chars_of(a.as_str()),
            None => chars_of("Unknown"),
        };
        head.push(ScreenSpan { text: author, tone: Tone::Author });
        let mut date = chars_of(" [");
        push_str(&mut date, m.created_at.as_str());
        push_str(&mut date, "]");
        head.push(ScreenSpan { text: date, tone: Tone::Muted });
        let ghost headv = seq![
            (or_default(opt_chars(m.author_name), "Unknown"@), Tone::Author),
            (" ["@ + m.created_at@ + "]"@, Tone::Muted),
        ];
        assert(line_view(head) =~= headv);
        push_line(&mut out, head);
        let ghost after_author = lines_view(out@);
        let body = crate::ui::pager::lines_of(m.body.as_str());
        let ghost bl = body@.map_values(|l: String| l@);
        let mut k: usize = 0;
        while k < body.len()
            invariant
                k <= body@.len(),
                bl == body@.map_values(|l: String| l@),
                lines_view(out@) == after_author + bl.take(k as int).map_values(
                    |l: Seq<char>| seq![(l, Tone::Plain)],
                ),
            decreases body@.len() - k,
        {
            let ghost b4 = lines_view(out@);
            push_line(&mut out, one_span(chars_of(body[k].as_str()), Tone::Plain));
            assert(bl.take(k + 1).map_values(|l: Seq<char>| seq![(l, Tone::Plain)])
                =~= bl.take(k as int).map_values(|l: Seq<char>| seq![(l, Tone::Plain)]).push(
                seq![(bl[k as int], Tone::Plain)],
            ));
            k = k + 1;
        }
        assert(bl.take(k as int) =~= bl);
        push_line(&mut out, empty_line());
        let ghost rest = messages@.subrange(j - 1, messages@.len() as int);
        assert(rest.drop_first() =~= messages@.subrange(j as int, messages@.len() as int));
        assert(rest.first() == messages@[j - 1]);
        assert(bl == crate::ui::pager::split_lines(m.body@));
        assert(pane_message(messages@[j - 1]) =~= seq![headv] + bl.map_values(
            |l: Seq<char>| seq![(l, Tone::Plain)],
        ) + seq![Seq::<(Seq<char>, Tone)>::empty()]);
        assert(lines_view(out@) =~= before + pane_message(messages@[j - 1]));
        j = j - 1;
    }
    assert(messages@.subrange(0, messages@.len() as int) =~= messages@);
    push_line(&mut out, one_span(Vec::new(), Tone::Rule));
    push_line(&mut out, one_span(chars_of("Press 'r' to reply"), Tone::Muted));
    out
}

/// What the list says when a view has no conversations.
pub fn empty_view_message(view: InboxView) -> (r: String)
    ensures
        r@ == "No conversations found in view '"@ + view.spec_debug_name() + "'."@,
{
    let mut b = chars_of("No conversations found in view '");
    push_str(&mut b, view.debug_name());
    push_str(&mut b, "'.");
    string_of(&b)
}

// ── Order ───────────────────────────────────────────────────────────────────
/// The keys the inbox is ordered by: the time of the latest message.
pub open spec fn latest_keys(rows: Seq<ConversationRow>) -> Seq<KeyView> {
    rows.map_values(|r: ConversationRow| KeyView::Text(r.last_message_at@))
}

/// The conversations, latest message first; conversations with the same
/// time keep their order.
pub fn sort_by_latest(rows: Vec<ConversationRow>) -> (out: Vec<ConversationRow>)
    ensures
        exists|perm: Seq<usize>|
            is_stable_sorted(latest_keys(rows@), perm, true) && out@.len() == perm.len() && (
            forall|k: int| 0 <= k < perm.len() ==> out@[k] == rows@[#[trigger] perm[k] as int]),
{
    let mut keys: Vec<SortKey> = Vec::new();
    let mut i: usize = 0;
    while i < rows.len()
        invariant
            i <= rows@.len(),
            keys@.len() == i,
            forall|j: int| 0 <= j < i ==> (#[trigger] keys@[j])@ == KeyView::Text(
                rows@[j].last_message_at@,
            ),
        decreases rows@.len() - i,
    {
        keys.push(SortKey::Text(chars_of(rows[i].last_message_at.as_str())));
        i = i + 1;
    }
    assert(key_views(keys@) =~= latest_keys(rows@));
    let perm = stable_sort_indices(&keys, true);
    let ghost rows0 = rows@;
    let out = apply_permutation(rows, &perm);
    assert(is_stable_sorted(latest_keys(rows0), perm@, true));
    out
}

// ── The interactive inbox ───────────────────────────────────────────────────
/// The number of inbox tabs.
pub const TAB_COUNT: usize = 5;

/// The view of each inbox tab, left to right.
pub open spec fn tab_view(i: int) -> InboxView {
    if i == 0 {
        InboxView::Active
    } else if i == 1 {
        InboxView::NeedsReply
    } else if i == 2 {
        InboxView::Mine
    } else if i == 3 {
        InboxView::Resolved
    } else {
        InboxView::Archived
    }
}

/// The view of an inbox tab.
pub fn tab_view_of(i: usize) -> (v: InboxView)
    ensures
        v == tab_view(i as int),
{
    if i == 0 {
        InboxView::Active
    } else if i == 1 {
        InboxView::NeedsReply
    } else if i == 2 {
        InboxView::Mine
    } else if i == 3 {
        InboxView::Resolved
    } else {
        InboxView::Archived
    }
}

/// What the interactive inbox knows between events. The rows and the loaded
/// thread themselves stay with the caller; this holds what decides.
#[derive(Debug, Clone, PartialEq)]
pub struct InboxState {
    /// The selected tab.
    pub tab: usize,
    /// The ids of the listed conversations, in order.
    pub ids: Vec<String>,
    /// The selected row.
    pub selected: Option<usize>,
    /// A list is being fetched.
    pub loading_list: bool,
    /// A thread is being fetched.
    pub loading_thread: bool,
    /// The conversation whose thread is wanted.
    pub active_id: Option<String>,
    /// A thread is shown.
    pub has_thread: bool,
    /// Why the wanted thread failed to load.
    pub thread_error: Option<String>,
}

/// The inbox state as values.
pub struct InboxModel {
    pub tab: int,
    pub ids: Seq<Seq<char>>,
    pub selected: Option<int>,
    pub loading_list: bool,
    pub loading_thread: bool,
    pub active_id: Option<Seq<char>>,
    pub has_thread: bool,
    pub thread_error: Option<Seq<char>>,
}

/// The text of an optional string.
pub open spec fn opt_chars(o: Option<String>) -> Option<Seq<char>> {
    match o {
        Some(s) => Some(s@),
        None => None,
    }
}

impl View for InboxState {
    type V = InboxModel;

    open spec fn view(&self) -> InboxModel {
        InboxModel {
            tab: self.tab as int,
            ids: self.ids@.map_values(|s: String| s@),
            selected: match self.selected {
                Some(i) => Some(i as int),
                None => None,
            },
            loading_list: self.loading_list,
            loading_thread: self.loading_thread,
            active_id: opt_chars(self.active_id),
            has_thread: self.has_thread,
            thread_error: opt_chars(self.thread_error),
        }
    }
}

/// A well-formed inbox: a tab among the five, a selection within the rows.
pub open spec fn inbox_wf(m: InboxModel) -> bool {
    &&& 0 <= m.tab < 5
    &&& m.selected matches Some(i) ==> 0 <= i < m.ids.len()
}

/// What happens to the inbox.
#[derive(Debug, Clone, PartialEq)]
pub enum InboxEvent {
    /// A key was pressed.
    Key(Key),
    /// A list fetch for a view ended: the ids of its rows, or `None` when it
    /// failed.
    ListLoaded(InboxView, Option<Vec<String>>),
    /// A thread fetch for a conversation ended: `None`, or why it failed.
    ThreadLoaded(String, Option<String>),
    /// The reply editor for a conversation closed, with the text written.
    ReplyWritten(String, Option<String>),
}

/// An inbox event as values.
pub enum EventModel {
    Key(Key),
    ListLoaded(InboxView, Option<Seq<Seq<char>>>),
    ThreadLoaded(Seq<char>, Option<Seq<char>>),
    ReplyWritten(Seq<char>, Option<Seq<char>>),
}

impl View for InboxEvent {
    type V = EventModel;

    open spec fn view(&self) -> EventModel {
        match self {
            InboxEvent::Key(k) => EventModel::Key(*k),
            InboxEvent::ListLoaded(v, ids) => EventModel::ListLoaded(
                *v,
                match ids {
                    Some(l) => Some(l@.map_values(|s: String| s@)),
                    None => None,
                },
            ),
            InboxEvent::ThreadLoaded(id, err) => EventModel::ThreadLoaded(id@, opt_chars(*err)),
            InboxEvent::ReplyWritten(id, text) => EventModel::ReplyWritten(id@, opt_chars(*text)),
        }
    }
}

/// What the caller does next.
#[derive(Debug, Clone, PartialEq)]
pub enum InboxAction {
    /// Nothing.
    Nothing,
    /// Leave the inbox.
    Quit,
    /// Open the reply editor for a conversation.
    ComposeReply(String),
    /// Send a reply, then fetch the conversation's thread again.
    SendReply(String, String),
    /// Fetch the list of a view.
    FetchList(InboxView),
    /// Fetch the thread of a conversation.
    FetchThread(String),
    /// Show the loaded list (empty when it failed); then fetch the given
    /// thread, if any.
    ShowList(Option<String>),
    /// Show the loaded thread (or its error).
    ShowThread,
}

/// An inbox action as values.
pub enum ActionModel {
    Nothing,
    Quit,
    ComposeReply(Seq<char>),
    SendReply(Seq<char>, Seq<char>),
    FetchList(InboxView),
    FetchThread(Seq<char>),
    ShowList(Option<Seq<char>>),
    ShowThread,
}

impl View for InboxAction {
    type V = ActionModel;

    open spec fn view(&self) -> ActionModel {
        match self {
            InboxAction::Nothing => ActionModel::Nothing,
            InboxAction::Quit => ActionModel::Quit,
            InboxAction::ComposeReply(id) => ActionModel::ComposeReply(id@),
            InboxAction::SendReply(id, t) => ActionModel::SendReply(id@, t@),
            InboxAction::FetchList(v) => ActionModel::FetchList(*v),
            InboxAction::FetchThread(id) => ActionModel::FetchThread(id@),
            InboxAction::ShowList(id) => ActionModel::ShowList(opt_chars(*id)),
            InboxAction::ShowThread => ActionModel::ShowThread,
        }
    }
}

/// The row below the selection, wrapping to the top.
pub open spec fn select_down(sel: Option<int>, n: int) -> int {
    match sel {
        Some(i) => if i >= n - 1 {
            0
        } else {
            i + 1
        },
        None => 0,
    }
}

/// The row above the selection, wrapping to the bottom.
pub open spec fn select_up(sel: Option<int>, n: int) -> int {
    match sel {
        Some(i) => if i == 0 {
            n - 1
        } else {
            i - 1
        },
        None => 0,
    }
}

/// The inbox after selecting row `i` and asking for its thread.
pub open spec fn select_row(m: InboxModel, i: int) -> (InboxModel, ActionModel) {
    (
        InboxModel {
            selected: Some(i),
            active_id: Some(m.ids[i]),
            thread_error: None,
            loading_thread: true,
            ..m
        },
        ActionModel::FetchThread(m.ids[i]),
    )
}

/// The inbox after moving to tab `t` and asking for its list.
pub open spec fn switch_tab(m: InboxModel, t: int) -> (InboxModel, ActionModel) {
    (InboxModel { tab: t, loading_list: true, ..m }, ActionModel::FetchList(tab_view(t)))
}

/// What a key does.
pub open spec fn on_key(m: InboxModel, k: Key) -> (InboxModel, ActionModel) {
    match k {
        Key::Char('q') | Key::Escape => (m, ActionModel::Quit),
        Key::Char('r') => match m.active_id {
            Some(id) => (m, ActionModel::ComposeReply(id)),
            None => (m, ActionModel::Nothing),
        },
        Key::ArrowRight | Key::Tab => switch_tab(m, (m.tab + 1) % 5),
        Key::ArrowLeft | Key::BackTab => switch_tab(m, (m.tab + 5 - 1) % 5),
        Key::ArrowDown | Key::Char('j') => if m.ids.len() > 0 {
            select_row(m, select_down(m.selected, m.ids.len() as int))
        } else {
            (m, ActionModel::Nothing)
        },
        Key::ArrowUp | Key::Char('k') => if m.ids.len() > 0 {
            select_row(m, select_up(m.selected, m.ids.len() as int))
        } else {
            (m, ActionModel::Nothing)
        },
        _ => (m, ActionModel::Nothing),
    }
}

/// What a finished list fetch does: a list for another tab is dropped.
pub open spec fn on_list(m: InboxModel, v: InboxView, ids: Option<Seq<Seq<char>>>) -> (
    InboxModel,
    ActionModel,
) {
    if tab_view(m.tab) != v {
        (m, ActionModel::Nothing)
    } else {
        match ids {
            Some(l) => if l.len() > 0 {
                (
                    InboxModel {
                        loading_list: false,
                        ids: l,
                        selected: Some(0),
                        active_id: Some(l[0]),
                        thread_error: None,
                        loading_thread: true,
                        ..m
                    },
                    ActionModel::ShowList(Some(l[0])),
                )
            } else {
                (
                    InboxModel {
                        loading_list: false,
                        ids: l,
                        selected: None,
                        has_thread: false,
                        active_id: None,
                        ..m
                    },
                    ActionModel::ShowList(None),
                )
            },
            None => (
                InboxModel { loading_list: false, ids: seq![], selected: None, ..m },
                ActionModel::ShowList(None),
            ),
        }
    }
}

/// What a finished thread fetch does: a thread no longer wanted is dropped.
pub open spec fn on_thread(m: InboxModel, id: Seq<char>, err: Option<Seq<char>>) -> (
    InboxModel,
    ActionModel,
) {
    if m.active_id != Some(id) {
        (m, ActionModel::Nothing)
    } else {
        (
            InboxModel {
                loading_thread: false,
                has_thread: err is None,
                thread_error: err,
                ..m
            },
            ActionModel::ShowThread,
        )
    }
}

/// What a closed reply editor does: a reply with text is sent.
pub open spec fn on_reply(m: InboxModel, id: Seq<char>, text: Option<Seq<char>>) -> (
    InboxModel,
    ActionModel,
) {
    match text {
        Some(t) => if !all_blank(t) {
            (InboxModel { loading_thread: true, ..m }, ActionModel::SendReply(id, t))
        } else {
            (m, ActionModel::Nothing)
        },
        None => (m, ActionModel::Nothing),
    }
}

/// The inbox's next state and action for an event.
pub open spec fn inbox_next(m: InboxModel, e: EventModel) -> (InboxModel, ActionModel) {
    match e {
        EventModel::Key(k) => on_key(m, k),
        EventModel::ListLoaded(v, ids) => on_list(m, v, ids),
        EventModel::ThreadLoaded(id, err) => on_thread(m, id, err),
        EventModel::ReplyWritten(id, text) => on_reply(m, id, text),
    }
}

/// The inbox as it opens on a list: the first row selected and its thread
/// asked for.
pub open spec fn inbox_start(ids: Seq<Seq<char>>) -> (InboxModel, ActionModel) {
    let m = InboxModel {
        tab: 0,
        ids: ids,
        selected: if ids.len() > 0 {
            Some(0)
        } else {
            None
        },
        loading_list: false,
        loading_thread: ids.len() > 0,
        active_id: if ids.len() > 0 {
            Some(ids[0])
        } else {
            None
        },
        has_thread: false,
        thread_error: None,
    };
    (m, if ids.len() > 0 {
        ActionModel::FetchThread(ids[0])
    } else {
        ActionModel::Nothing
    })
}

fn clone_string(s: &String) -> (r: String)
    ensures
        r@ == s@,
{
    s.clone()
}

impl InboxState {
    /// The inbox as it opens on the listed conversations.
    pub fn start(ids: Vec<String>) -> (r: (InboxState, InboxAction))
        ensures
            (r.0@, r.1@) == inbox_start(ids@.map_values(|s: String| s@)),
            inbox_wf(r.0@),
    {
        if ids.len() > 0 {
            let first = clone_string(&ids[0]);
            let again = clone_string(&ids[0]);
            let s = InboxState {
                tab: 0,
                ids,
                selected: Some(0),
                loading_list: false,
                loading_thread: true,
                active_id: Some(first),
                has_thread: false,
                thread_error: None,
            };
            (s, InboxAction::FetchThread(again))
        } else {
            let s = InboxState {
                tab: 0,
                ids,
                selected: None,
                loading_list: false,
                loading_thread: false,
                active_id: None,
                has_thread: false,
                thread_error: None,
            };
            (s, InboxAction::Nothing)
        }
    }

    fn select(&mut self, i: usize) -> (a: InboxAction)
        requires
            i < old(self).ids@.len(),
        ensures
            (final(self)@, a@) == select_row(old(self)@, i as int),
    {
        let id = clone_string(&self.ids[i]);
        let again = clone_string(&self.ids[i]);
        self.selected = Some(i);
        self.active_id = Some(id);
        self.thread_error = None;
        self.loading_thread = true;
        InboxAction::FetchThread(again)
    }

    fn on_key(&mut self, k: Key) -> (a: InboxAction)
        requires
            inbox_wf(old(self)@),
        ensures
            (final(self)@, a@) == on_key(old(self)@, k),
    {
        match k {
            Key::Char('q') | Key::Escape => InboxAction::Quit,
            Key::Char('r') => match &self.active_id {
                Some(id) => InboxAction::ComposeReply(clone_string(id)),
                None => InboxAction::Nothing,
            },
            Key::ArrowRight | Key::Tab => {
                self.tab = (self.tab + 1) % TAB_COUNT;
                self.loading_list = true;
                InboxAction::FetchList(tab_view_of(self.tab))
            },
            Key::ArrowLeft | Key::BackTab => {
                self.tab = (self.tab + TAB_COUNT - 1) % TAB_COUNT;
                self.loading_list = true;
                InboxAction::FetchList(tab_view_of(self.tab))
            },
            Key::ArrowDown | Key::Char('j') => {
                if self.ids.len() > 0 {
                    let i: usize = match self.selected {
                        Some(i) => if i >= self.ids.len() - 1 {
                            0
                        } else {
                            i + 1
                        },
                        None => 0,
                    };
                    self.select(i)
                } else {
                    InboxAction::Nothing
                }
            },
            Key::ArrowUp | Key::Char('k') => {
                if self.ids.len() > 0 {
                    let i: usize = match self.selected {
                        Some(i) => if i == 0 {
                            self.ids.len() - 1
                        } else {
                            i - 1
                        },
                        None => 0,
                    };
                    self.select(i)
                } else {
                    InboxAction::Nothing
                }
            },
            _ => InboxAction::Nothing,
        }
    }

    /// Takes an event: the state moves on, and the caller is told what to do.
    pub fn step(&mut self, e: InboxEvent) -> (a: InboxAction)
        requires
            inbox_wf(old(self)@),
        ensures
            (final(self)@, a@) == inbox_next(old(self)@, e@),
            inbox_wf(final(self)@),
    {
        match e {
            InboxEvent::Key(k) => self.on_key(k),
            InboxEvent::ListLoaded(v, ids) => {
                if tab_view_of(self.tab) != v {
                    return InboxAction::Nothing;
                }
                self.loading_list = false;
                match ids {
                    Some(l) => {
                        if l.len() > 0 {
                            let first = clone_string(&l[0]);
                            let again = clone_string(&l[0]);
                            self.ids = l;
                            self.selected = Some(0);
                            self.active_id = Some(first);
                            self.thread_error = None;
                            self.loading_thread = true;
                            InboxAction::ShowList(Some(again))
                        } else {
                            self.ids = l;
                            self.selected = None;
                            self.has_thread = false;
                            self.active_id = None;
                            InboxAction::ShowList(None)
                        }
                    },
                    None => {
                        self.ids = Vec::new();
                        self.selected = None;
                        proof {
                            assert(self@.ids =~= Seq::<Seq<char>>::empty());
                        }
                        InboxAction::ShowList(None)
                    },
                }
            },
            InboxEvent::ThreadLoaded(id, err) => {
                let wanted = match &self.active_id {
                    Some(a) => crate::text::str_eq(a.as_str(), id.as_str()),
                    None => false,
                };
                if !wanted {
                    return InboxAction::Nothing;
                }
                self.loading_thread = false;
                self.has_thread = err.is_none();
                self.thread_error = err;
                InboxAction::ShowThread
            },
            InboxEvent::ReplyWritten(id, text) => match text {
                Some(t) => {
                    if !is_blank(t.as_str()) {
                        self.loading_thread = true;
                        InboxAction::SendReply(id, t)
                    } else {
                        InboxAction::Nothing
                    }
                },
                None => InboxAction::Nothing,
            },
        }
    }
}

// ── Laws ────────────────────────────────────────────────────────────────────
/// Every event keeps the inbox well-formed: the tab is one of the five and
/// the selection is a listed row.
pub proof fn lemma_inbox_keeps_wf(m: InboxModel, e: EventModel)
    requires
        inbox_wf(m),
    ensures
        inbox_wf(inbox_next(m, e).0),
{
}

/// Moving one tab right and then one tab left comes back to the same tab.
pub proof fn lemma_tab_round_trip(m: InboxModel)
    requires
        inbox_wf(m),
    ensures
        inbox_next(inbox_next(m, EventModel::Key(Key::ArrowRight)).0, EventModel::Key(
            Key::ArrowLeft,
        )).0.tab == m.tab,
{
}

/// `j` moves like the down arrow and `k` like the up arrow, in every state.
/// Down selects the next row (the first after the last) and up the previous
/// one (the last before the first), and each asks for the new row's thread.
pub proof fn lemma_j_k_move_rows(m: InboxModel)
    requires
        inbox_wf(m),
    ensures
        inbox_next(m, EventModel::Key(Key::Char('j'))) == inbox_next(
            m,
            EventModel::Key(Key::ArrowDown),
        ),
        inbox_next(m, EventModel::Key(Key::Char('k'))) == inbox_next(
            m,
            EventModel::Key(Key::ArrowUp),
        ),
        m.selected matches Some(i) ==> {
            let n = m.ids.len() as int;
            let down = if i + 1 < n { i + 1 } else { 0 };
            let up = if i > 0 { i - 1 } else { n - 1 };
            &&& inbox_next(m, EventModel::Key(Key::Char('j'))).0.selected == Some(down)
            &&& inbox_next(m, EventModel::Key(Key::Char('j'))).1 == ActionModel::FetchThread(
                m.ids[down],
            )
            &&& inbox_next(m, EventModel::Key(Key::Char('k'))).0.selected == Some(up)
            &&& inbox_next(m, EventModel::Key(Key::Char('k'))).1 == ActionModel::FetchThread(
                m.ids[up],
            )
        },
{
}

/// Moving the selection down and then up comes back to the same row.
pub proof fn lemma_down_up_round_trip(m: InboxModel)
    requires
        inbox_wf(m),
        m.selected is Some,
    ensures
        inbox_next(inbox_next(m, EventModel::Key(Key::ArrowDown)).0, EventModel::Key(
            Key::ArrowUp,
        )).0.selected == m.selected,
{
}

/// A list fetched for a tab that is no longer shown, and a thread that is no
/// longer wanted, change nothing.
pub proof fn lemma_stale_results_ignored(
    m: InboxModel,
    v: InboxView,
    ids: Option<Seq<Seq<char>>>,
    id: Seq<char>,
    err: Option<Seq<char>>,
)
    ensures
        tab_view(m.tab) != v ==> inbox_next(m, EventModel::ListLoaded(v, ids)) == (
        m,
        ActionModel::Nothing,
        ),
        m.active_id != Some(id) ==> inbox_next(m, EventModel::ThreadLoaded(id, err)) == (
        m,
        ActionModel::Nothing,
        ),
{
}

} // verus!
