//! `konf speakers`: arguments, the conference's speakers as the accepted
//! talks name them, searching, and the speaker detail view.
use vstd::prelude::*;

use crate::style::{Paint, Part, Span, parts_of, push_span};
use crate::text::{
    chars_of, contains_exec, contains_seq, join, lower_of, pad_right, push_chars, push_padded,
    push_str, str_eq, string_of, texts, to_lower,
};
use crate::types::proposal::{Proposal, ProposalSortBy, ProposalStatus, SortOrder, paragraphs, portable_text_to_plain};
use crate::types::{Speaker, SpeakerBio, SpeakerFlag, SpeakerSummary};

verus! {

/// `konf speakers`.
#[derive(Debug, Clone, PartialEq)]
pub struct SpeakerArgs {
    pub command: SpeakerCommand,
}

/// The `konf speakers` subcommands.
#[derive(Debug, Clone, PartialEq)]
pub enum SpeakerCommand {
    /// List speakers (accepted and confirmed ones unless told otherwise).
    List(ListArgs),
    /// Show a speaker's details.
    Get { id: String, json: bool },
    /// Add a speaker profile.
    Add(CreateArgs),
    /// Delete a speaker.
    Delete { id: String, yes: bool },
    /// Send an e-mail to all speakers, and/or sync the audience.
    Broadcast { subject: Option<String>, message: Option<String>, sync: bool },
    /// Find a speaker by e-mail, or create one.
    FindOrCreate(FindOrCreateArgs),
    /// Sync the confirmed speakers with the newsletter audience.
    SyncAudience,
}

/// `konf speakers find-or-create`.
#[derive(Debug, Clone, PartialEq)]
pub struct FindOrCreateArgs {
    pub email: String,
    pub name: String,
    pub title: Option<String>,
    pub company: Option<String>,
}

/// `konf speakers list`.
#[derive(Debug, Clone, PartialEq)]
pub struct ListArgs {
    pub compact: bool,
    pub limit: Option<usize>,
    pub json: bool,
    /// Search across names and e-mails.
    pub query: Option<String>,
    /// Search all speakers, not just this conference's.
    pub all: bool,
    /// The talk statuses that make a speaker listed.
    pub status: Option<Vec<ProposalStatus>>,
    pub sort: ProposalSortBy,
    pub order: SortOrder,
}

impl Default for ListArgs {
    fn default() -> (a: Self)
        ensures
            !a.compact && a.limit is None && !a.json && a.query is None && !a.all
                && a.status is None && a.sort == ProposalSortBy::Created && a.order
                == SortOrder::Asc,
    {
        ListArgs {
            compact: false,
            limit: None,
            json: false,
            query: None,
            all: false,
            status: None,
            sort: ProposalSortBy::Created,
            order: SortOrder::Asc,
        }
    }
}

impl ListArgs {
    /// Whether the command line narrowed or reordered the list: a search, a
    /// status, or an order other than by speaker ascending.
    pub open spec fn spec_has_cli_filters(self) -> bool {
        self.query is Some || self.status is Some || self.sort != ProposalSortBy::Speaker
            || self.order != SortOrder::Asc
    }

    /// Whether the command line narrowed or reordered the list.
    pub fn has_cli_filters(&self) -> (r: bool)
        ensures
            r == self.spec_has_cli_filters(),
    {
        self.query.is_some() || self.status.is_some() || self.sort != ProposalSortBy::Speaker
            || self.order != SortOrder::Asc
    }
}

/// `konf speakers add`.
#[derive(Debug, Clone, PartialEq)]
pub struct CreateArgs {
    pub id: Option<String>,
    pub name: String,
    pub email: String,
    pub title: Option<String>,
    pub company: Option<String>,
    pub bio: Option<String>,
    pub image: Option<String>,
    pub links: Option<Vec<String>>,
    pub flags: Option<Vec<SpeakerFlag>>,
}

// ── Which speakers are listed ───────────────────────────────────────────────
/// The talk statuses whose speakers are listed: those given, else accepted
/// and confirmed.
pub fn listed_statuses(args: &ListArgs) -> (v: Vec<ProposalStatus>)
    ensures
        match args.status {
            Some(s) => v@ == s@,
            None => v@ == seq![ProposalStatus::Accepted, ProposalStatus::Confirmed],
        },
{
    match &args.status {
        Some(s) => {
            let mut v: Vec<ProposalStatus> = Vec::new();
            let mut i: usize = 0;
            while i < s.len()
                invariant
                    i <= s@.len(),
                    v@ == s@.take(i as int),
                decreases s@.len() - i,
            {
                v.push(s[i]);
                i = i + 1;
                assert(v@ =~= s@.take(i as int));
            }
            assert(s@.take(i as int) =~= s@);
            v
        },
        None => {
            let v = vec![ProposalStatus::Accepted, ProposalStatus::Confirmed];
            assert(v@ =~= seq![ProposalStatus::Accepted, ProposalStatus::Confirmed]);
            v
        },
    }
}

/// The statuses of the talks shown with a speaker.
pub fn talk_statuses() -> (v: Vec<ProposalStatus>)
    ensures
        v@ == seq![
            ProposalStatus::Submitted,
            ProposalStatus::Accepted,
            ProposalStatus::Confirmed,
            ProposalStatus::Waitlisted,
            ProposalStatus::Rejected,
        ],
{
    let v = vec![
        ProposalStatus::Submitted,
        ProposalStatus::Accepted,
        ProposalStatus::Confirmed,
        ProposalStatus::Waitlisted,
        ProposalStatus::Rejected,
    ];
    assert(v@ =~= seq![
        ProposalStatus::Submitted,
        ProposalStatus::Accepted,
        ProposalStatus::Confirmed,
        ProposalStatus::Waitlisted,
        ProposalStatus::Rejected,
    ]);
    v
}

/// All speakers of the proposals, in order, each as a summary.
pub open spec fn all_speakers(ps: Seq<Proposal>) -> Seq<Speaker>
    decreases ps.len(),
{
    if ps.len() == 0 {
        seq![]
    } else {
        all_speakers(ps.drop_last()) + ps.last().speakers@
    }
}

/// The speakers with their first occurrence kept and later ones dropped.
pub open spec fn first_occurrences(ss: Seq<Speaker>) -> Seq<Speaker>
    decreases ss.len(),
{
    if ss.len() == 0 {
        seq![]
    } else {
        let rest = first_occurrences(ss.drop_last());
        if ids_of(rest).contains(ss.last().id@) {
            rest
        } else {
            rest.push(ss.last())
        }
    }
}

/// The ids of speakers.
pub open spec fn ids_of(ss: Seq<Speaker>) -> Seq<Seq<char>> {
    ss.map_values(|s: Speaker| s.id@)
}

/// A speaker as a summary row holds it.
pub open spec fn summary_matches(x: SpeakerSummary, s: Speaker) -> bool {
    &&& x.id@ == s.id@
    &&& x.name@ == s.name@
    &&& opt_text(x.email) == opt_text(s.email)
    &&& opt_text(x.title) == opt_text(s.title)
    &&& opt_text(x.slug) == opt_text(s.slug)
    &&& opt_text(x.image) == opt_text(s.image)
}

/// The text of an optional string.
pub open spec fn opt_text(o: Option<String>) -> Option<Seq<char>> {
    match o {
        Some(s) => Some(s@),
        None => None,
    }
}

fn copy_opt(o: &Option<String>) -> (r: Option<String>)
    ensures
        opt_text(r) == opt_text(*o),
{
    match o {
        Some(s) => Some(string_of(&chars_of(s.as_str()))),
        None => None,
    }
}

fn summary_of(s: &Speaker) -> (x: SpeakerSummary)
    ensures
        summary_matches(x, *s),
{
    SpeakerSummary {
        id: string_of(&chars_of(s.id.as_str())),
        name: string_of(&chars_of(s.name.as_str())),
        email: copy_opt(&s.email),
        title: copy_opt(&s.title),
        slug: copy_opt(&s.slug),
        image: copy_opt(&s.image),
    }
}

fn id_seen(seen: &Vec<String>, id: &str) -> (r: bool)
    ensures
        r == texts(seen@).contains(id@),
{
    let mut i: usize = 0;
    while i < seen.len()
        invariant
            i <= seen@.len(),
            forall|j: int| 0 <= j < i ==> texts(seen@)[j] != id@,
        decreases seen@.len() - i,
    {
        if str_eq(seen[i].as_str(), id) {
            assert(texts(seen@)[i as int] == id@);
            return true;
        }
        i = i + 1;
    }
    false
}

/// The conference's speakers: every speaker of the proposals, once, in the
/// order they first appear.
pub fn conference_speakers(proposals: &[Proposal]) -> (out: Vec<SpeakerSummary>)
    ensures
        out@.len() == first_occurrences(all_speakers(proposals@)).len(),
        forall|k: int|
            0 <= k < out@.len() ==> summary_matches(
                #[trigger] out@[k],
                first_occurrences(all_speakers(proposals@))[k],
            ),
{
    let mut out: Vec<SpeakerSummary> = Vec::new();
    let mut seen: Vec<String> = Vec::new();
    let ghost mut flat: Seq<Speaker> = seq![];
    let mut i: usize = 0;
    assert(proposals@.take(0) =~= Seq::<Proposal>::empty());
    while i < proposals.len()
        invariant
            i <= proposals@.len(),
            flat == all_speakers(proposals@.take(i as int)),
            out@.len() == first_occurrences(flat).len(),
            texts(seen@) == ids_of(first_occurrences(flat)),
            forall|k: int|
                0 <= k < out@.len() ==> summary_matches(
                    #[trigger] out@[k],
                    first_occurrences(flat)[k],
                ),
        decreases proposals@.len() - i,
    {
        let p = &proposals[i];
        let ghost base = flat;
        let mut j: usize = 0;
        assert(p.speakers@.take(0) =~= Seq::<Speaker>::empty());
        assert(base + p.speakers@.take(0) =~= base);
        while j < p.speakers.len()
            invariant
                j <= p.speakers@.len(),
                flat == base + p.speakers@.take(j as int),
                out@.len() == first_occurrences(flat).len(),
                texts(seen@) == ids_of(first_occurrences(flat)),
                forall|k: int|
                    0 <= k < out@.len() ==> summary_matches(
                        #[trigger] out@[k],
                        first_occurrences(flat)[k],
                    ),
            decreases p.speakers@.len() - j,
        {
            let s = &p.speakers[j];
            let ghost prev = flat;
            proof {
                flat = flat.push(p.speakers@[j as int]);
                assert(flat.drop_last() =~= prev);
                assert(base + p.speakers@.take(j + 1) =~= flat);
            }
            let ghost fo = first_occurrences(prev);
            if !id_seen(&seen, s.id.as_str()) {
                out.push(summary_of(s));
                let ghost before = texts(seen@);
                seen.push(string_of(&chars_of(s.id.as_str())));
                assert(texts(seen@) =~= before.push(s.id@));
                assert(ids_of(fo.push(*s)) =~= ids_of(fo).push(s.id@));
            }
            j = j + 1;
        }
        assert(p.speakers@.take(j as int) =~= p.speakers@);
        assert(proposals@.take(i + 1).drop_last() =~= proposals@.take(i as int));
        i = i + 1;
    }
    assert(proposals@.take(i as int) =~= proposals@);
    out
}

/// A proposal has this speaker.
pub open spec fn has_speaker(p: Proposal, id: Seq<char>) -> bool {
    exists|k: int| 0 <= k < p.speakers@.len() && #[trigger] p.speakers@[k].id@ == id
}

/// The proposals with this speaker, in order.
pub open spec fn talks_of(ps: Seq<Proposal>, id: Seq<char>) -> Seq<Proposal>
    decreases ps.len(),
{
    if ps.len() == 0 {
        seq![]
    } else {
        let rest = talks_of(ps.drop_last(), id);
        if has_speaker(ps.last(), id) {
            rest.push(ps.last())
        } else {
            rest
        }
    }
}

fn has_speaker_exec(p: &Proposal, id: &str) -> (r: bool)
    ensures
        r == has_speaker(*p, id@),
{
    let mut j: usize = 0;
    while j < p.speakers.len()
        invariant
            j <= p.speakers@.len(),
            forall|k: int| 0 <= k < j ==> p.speakers@[k].id@ != id@,
        decreases p.speakers@.len() - j,
    {
        if str_eq(p.speakers[j].id.as_str(), id) {
            assert(p.speakers@[j as int].id@ == id@);
            return true;
        }
        j = j + 1;
    }
    false
}

/// The proposals a speaker is on.
pub fn talks_for_speaker<'a>(proposals: &'a [Proposal], id: &str) -> (out: Vec<&'a Proposal>)
    ensures
        out@.len() == talks_of(proposals@, id@).len(),
        forall|k: int| 0 <= k < out@.len() ==> *out@[k] == #[trigger] talks_of(proposals@, id@)[k],
{
    let mut out: Vec<&'a Proposal> = Vec::new();
    let mut i: usize = 0;
    assert(proposals@.take(0) =~= Seq::<Proposal>::empty());
    while i < proposals.len()
        invariant
            i <= proposals@.len(),
            out@.len() == talks_of(proposals@.take(i as int), id@).len(),
            forall|k: int|
                0 <= k < out@.len() ==> *out@[k] == talks_of(proposals@.take(i as int), id@)[k],
        decreases proposals@.len() - i,
    {
        assert(proposals@.take(i + 1).drop_last() =~= proposals@.take(i as int));
        let p = &proposals[i];
        let found = has_speaker_exec(p, id);
        if found {
            out.push(p);
        }
        i = i + 1;
    }
    assert(proposals@.take(i as int) =~= proposals@);
    out
}

// ── Search and rows ─────────────────────────────────────────────────────────
/// The query matches a speaker's name or e-mail, ignoring case.
pub open spec fn speaker_found(s: SpeakerSummary, q: Seq<char>) -> bool {
    contains_seq(lower_of(s.name@), lower_of(q)) || (s.email matches Some(e) && contains_seq(
        lower_of(e@),
        lower_of(q),
    ))
}

/// The speakers a query finds (all of them without a query), in order.
pub open spec fn found_all(ss: Seq<SpeakerSummary>, q: Option<Seq<char>>) -> Seq<SpeakerSummary>
    decreases ss.len(),
{
    if ss.len() == 0 {
        seq![]
    } else {
        let rest = found_all(ss.drop_last(), q);
        if q matches Some(qq) && !speaker_found(ss.last(), qq) {
            rest
        } else {
            rest.push(ss.last())
        }
    }
}

fn found_exec(s: &SpeakerSummary, needle: &[char]) -> (r: bool)
    ensures
        forall|q: Seq<char>| lower_of(q) == needle@ ==> r == speaker_found(*s, q),
{
    let name = chars_of(to_lower(s.name.as_str()).as_str());
    if contains_exec(&name, needle) {
        return true;
    }
    match &s.email {
        Some(e) => {
            let el = chars_of(to_lower(e.as_str()).as_str());
            contains_exec(&el, needle)
        },
        None => false,
    }
}

/// The speakers a query finds, ignoring case in names and e-mails.
pub fn search_speakers<'a>(speakers: &'a [SpeakerSummary], query: Option<&str>) -> (out: Vec<&'a SpeakerSummary>)
    ensures
        ({
            let q = match query {
                Some(x) => Some(x@),
                None => None,
            };
            out@.len() == found_all(speakers@, q).len() && forall|k: int|
                0 <= k < out@.len() ==> *out@[k] == #[trigger] found_all(speakers@, q)[k]
        }),
{
    let ghost q = match query {
        Some(x) => Some(x@),
        None => None,
    };
    let needle: Vec<char> = match query {
        Some(x) => chars_of(to_lower(x).as_str()),
        None => Vec::new(),
    };
    let mut out: Vec<&'a SpeakerSummary> = Vec::new();
    let mut i: usize = 0;
    assert(speakers@.take(0) =~= Seq::<SpeakerSummary>::empty());
    while i < speakers.len()
        invariant
            i <= speakers@.len(),
            q == (match query {
                Some(x) => Some(x@),
                None => None::<Seq<char>>,
            }),
            query matches Some(x) ==> needle@ == lower_of(x@),
            out@.len() == found_all(speakers@.take(i as int), q).len(),
            forall|k: int|
                0 <= k < out@.len() ==> *out@[k] == found_all(speakers@.take(i as int), q)[k],
        decreases speakers@.len() - i,
    {
        assert(speakers@.take(i + 1).drop_last() =~= speakers@.take(i as int));
        let keep = match query {
            Some(_) => found_exec(&speakers[i], &needle),
            None => true,
        };
        if keep {
            out.push(&speakers[i]);
        }
        i = i + 1;
    }
    assert(speakers@.take(i as int) =~= speakers@);
    out
}

/// A speaker as one row: id, name, e-mail.
pub open spec fn row_text(s: SpeakerSummary) -> Seq<char> {
    pad_right(s.id@, 20) + " "@ + pad_right(s.name@, 20) + " "@ + match s.email {
        Some(e) => e@,
        None => seq![],
    }
}

/// A speaker as one row of the list.
pub fn format_row(s: &SpeakerSummary) -> (r: String)
    ensures
        r@ == row_text(*s),
{
    let mut b: Vec<char> = Vec::new();
    push_padded(&mut b, &chars_of(s.id.as_str()), 20);
    push_str(&mut b, " ");
    push_padded(&mut b, &chars_of(s.name.as_str()), 20);
    push_str(&mut b, " ");
    match &s.email {
        Some(e) => push_str(&mut b, e.as_str()),
        None => {},
    }
    assert(b@ =~= row_text(*s));
    string_of(&b)
}

// ── The detail view ─────────────────────────────────────────────────────────
/// A flag as `{:?}` prints it.
pub open spec fn flag_debug(f: SpeakerFlag) -> Seq<char> {
    match f {
        SpeakerFlag::Local => "Local"@,
        SpeakerFlag::FirstTime => "FirstTime"@,
        SpeakerFlag::Diverse => "Diverse"@,
        SpeakerFlag::RequiresFunding => "RequiresFunding"@,
        SpeakerFlag::Keynote => "Keynote"@,
        SpeakerFlag::Hidden => "Hidden"@,
        SpeakerFlag::Internal => "Internal"@,
        SpeakerFlag::Unknown => "Unknown"@,
    }
}

fn flag_debug_exec(f: SpeakerFlag) -> (s: &'static str)
    ensures
        s@ == flag_debug(f),
{
    match f {
        SpeakerFlag::Local => "Local",
        SpeakerFlag::FirstTime => "FirstTime",
        SpeakerFlag::Diverse => "Diverse",
        SpeakerFlag::RequiresFunding => "RequiresFunding",
        SpeakerFlag::Keynote => "Keynote",
        SpeakerFlag::Hidden => "Hidden",
        SpeakerFlag::Internal => "Internal",
        SpeakerFlag::Unknown => "Unknown",
    }
}

/// A list of flags as `{:?}` prints it.
pub open spec fn flags_debug(fs: Seq<SpeakerFlag>) -> Seq<char> {
    "["@ + join(fs.map_values(|f: SpeakerFlag| flag_debug(f)), ", "@) + "]"@
}

fn flags_debug_exec(fs: &Vec<SpeakerFlag>) -> (r: Vec<char>)
    ensures
        r@ == flags_debug(fs@),
{
    let ghost names = fs@.map_values(|f: SpeakerFlag| flag_debug(f));
    let mut inner: Vec<char> = Vec::new();
    let mut i: usize = 0;
    assert(names.take(0) =~= Seq::<Seq<char>>::empty());
    while i < fs.len()
        invariant
            i <= fs@.len(),
            names == fs@.map_values(|f: SpeakerFlag| flag_debug(f)),
            inner@ == join(names.take(i as int), ", "@),
        decreases fs@.len() - i,
    {
        if i > 0 {
            push_str(&mut inner, ", ");
        }
        push_str(&mut inner, flag_debug_exec(fs[i]));
        i = i + 1;
        assert(names.take(i as int).drop_last() =~= names.take(i - 1));
        if i == 1 {
            assert(names.take(1) =~= seq![names[0]]);
            assert(inner@ =~= names[0]);
        }
    }
    assert(names.take(i as int) =~= names);
    let mut out = chars_of("[");
    push_chars(&mut out, &inner);
    push_str(&mut out, "]");
    out
}

/// The links, one line each.
pub open spec fn link_lines(ls: Seq<String>) -> Seq<char>
    decreases ls.len(),
{
    if ls.len() == 0 {
        seq![]
    } else {
        link_lines(ls.drop_last()) + "  - "@ + ls.last()@ + "\n"@
    }
}

/// The talks, one line each, the status in yellow.
pub open spec fn talk_parts(ts: Seq<Proposal>) -> Seq<Part>
    decreases ts.len(),
{
    if ts.len() == 0 {
        seq![]
    } else {
        talk_parts(ts.drop_last()) + seq![
            ("  - "@, None),
            ("["@ + ts.last().status.spec_label() + "]"@, Some(Paint::Yellow)),
            (" "@ + ts.last().title@ + "\n"@, None),
        ]
    }
}

/// The biography's text.
pub open spec fn bio_text(b: SpeakerBio) -> Option<Seq<char>> {
    match b {
        SpeakerBio::Null => None,
        SpeakerBio::Blocks(bs) => Some(join(paragraphs(bs@), "\n\n"@)),
        SpeakerBio::Text(t) => Some(t@),
        SpeakerBio::Other(j) => Some(j@),
    }
}

/// The proposals behind references.
pub open spec fn derefs(v: Seq<&Proposal>) -> Seq<Proposal> {
    v.map_values(|p: &Proposal| *p)
}

/// The e-mail, company and title lines.
pub open spec fn contact_text(s: Speaker) -> Seq<char> {
    let email = match s.email {
        Some(e) => "Email:   "@ + e@ + "\n"@,
        None => seq![],
    };
    let company = match s.company {
        Some(c) => "Company: "@ + c@ + "\n"@,
        None => seq![],
    };
    let title = match s.title {
        Some(t) => "Title:   "@ + t@ + "\n"@,
        None => seq![],
    };
    email + company + title
}

/// The flags line, when there are flags.
pub open spec fn flags_line(s: Speaker) -> Seq<char> {
    if s.flags@.len() > 0 {
        "Flags:   "@ + flags_debug(s.flags@) + "\n"@
    } else {
        seq![]
    }
}

/// The links block, when there are links.
pub open spec fn links_block(s: Speaker) -> Seq<char> {
    if s.links@.len() > 0 {
        "\nLinks:\n"@ + link_lines(s.links@)
    } else {
        seq![]
    }
}

/// A speaker's detail view: name and id, contact lines, flags, links,
/// talks, and the biography.
pub open spec fn detail_parts(s: Speaker, talks: Seq<Proposal>) -> Seq<Part> {
    let head = seq![
        (s.name@, Some(Paint::Bold)),
        (" ("@, None),
        (s.id@, Some(Paint::Dimmed)),
        (")\n"@, None),
    ];
    let info = contact_text(s) + flags_line(s) + links_block(s);
    let talks_section = if talks.len() > 0 {
        seq![("\nTalks:\n"@, None)] + talk_parts(talks)
    } else {
        seq![]
    };
    let bio = match bio_text(s.bio) {
        Some(t) => seq![("\nBio:\n"@ + t + "\n"@, None)],
        None => seq![],
    };
    head + seq![(info, None)] + talks_section + bio
}

fn contact_exec(s: &Speaker, b: &mut Vec<char>)
    ensures
        final(b)@ == old(b)@ + contact_text(*s),
{
    let ghost b0 = b@;
    match &s.email {
        Some(e) => {
            push_str(b, "Email:   ");
            push_str(b, e.as_str());
            push_str(b, "\n");
        },
        None => {},
    }
    let ghost b1 = b@;
    match &s.company {
        Some(c) => {
            push_str(b, "Company: ");
            push_str(b, c.as_str());
            push_str(b, "\n");
        },
        None => {},
    }
    let ghost b2 = b@;
    match &s.title {
        Some(t) => {
            push_str(b, "Title:   ");
            push_str(b, t.as_str());
            push_str(b, "\n");
        },
        None => {},
    }
    assert(b@ =~= b0 + contact_text(*s));
}

fn links_exec(s: &Speaker, b: &mut Vec<char>)
    ensures
        final(b)@ == old(b)@ + links_block(*s),
{
    let ghost b0 = b@;
    if s.links.len() > 0 {
        push_str(b, "\nLinks:\n");
        let ghost b4 = b@;
        let mut i: usize = 0;
        assert(s.links@.take(0) =~= Seq::<String>::empty());
        assert(b@ =~= b4 + link_lines(s.links@.take(0)));
        while i < s.links.len()
            invariant
                i <= s.links@.len(),
                b@ == b4 + link_lines(s.links@.take(i as int)),
            decreases s.links@.len() - i,
        {
            push_str(b, "  - ");
            push_str(b, s.links[i].as_str());
            push_str(b, "\n");
            i = i + 1;
            assert(s.links@.take(i as int).drop_last() =~= s.links@.take(i - 1));
            assert(b@ =~= b4 + link_lines(s.links@.take(i as int)));
        }
        assert(s.links@.take(i as int) =~= s.links@);
    }
    assert(b@ =~= b0 + links_block(*s));
}

fn info_text(s: &Speaker) -> (r: Vec<char>)
    ensures
        r@ == contact_text(*s) + flags_line(*s) + links_block(*s),
{
    let mut b: Vec<char> = Vec::new();
    contact_exec(s, &mut b);
    let ghost b0 = b@;
    if s.flags.len() > 0 {
        push_str(&mut b, "Flags:   ");
        push_chars(&mut b, &flags_debug_exec(&s.flags));
        push_str(&mut b, "\n");
    }
    assert(b@ =~= b0 + flags_line(*s));
    links_exec(s, &mut b);
    assert(b@ =~= contact_text(*s) + flags_line(*s) + links_block(*s));
    b
}

/// The spans of a speaker's detail view.
pub fn detail_spans(s: &Speaker, talks: &[&Proposal]) -> (out: Vec<Span>)
    ensures
        parts_of(out@) == detail_parts(*s, derefs(talks@)),
{
    let mut out: Vec<Span> = Vec::new();
    assert(parts_of(out@) =~= Seq::<Part>::empty());
    push_span(&mut out, chars_of(s.name.as_str()), Some(Paint::Bold));
    push_span(&mut out, chars_of(" ("), None);
    push_span(&mut out, chars_of(s.id.as_str()), Some(Paint::Dimmed));
    push_span(&mut out, chars_of(")\n"), None);
    push_span(&mut out, info_text(s), None);
    let ghost base = parts_of(out@);
    let ghost tv = derefs(talks@);
    if talks.len() > 0 {
        push_span(&mut out, chars_of("\nTalks:\n"), None);
        let ghost b1 = parts_of(out@);
        let mut i: usize = 0;
        assert(tv.take(0) =~= Seq::<Proposal>::empty());
        while i < talks.len()
            invariant
                i <= talks@.len(),
                tv == derefs(talks@),
                parts_of(out@) == b1 + talk_parts(tv.take(i as int)),
            decreases talks@.len() - i,
        {
            let t = talks[i];
            push_span(&mut out, chars_of("  - "), None);
            let mut st = chars_of("[");
            push_str(&mut st, t.status.label());
            push_str(&mut st, "]");
            push_span(&mut out, st, Some(Paint::Yellow));
            let mut rest = chars_of(" ");
            push_str(&mut rest, t.title.as_str());
            push_str(&mut rest, "\n");
            push_span(&mut out, rest, None);
            i = i + 1;
            assert(tv.take(i as int).drop_last() =~= tv.take(i - 1));
            assert(tv[i - 1] == *t);
            assert(parts_of(out@) =~= b1 + talk_parts(tv.take(i as int)));
        }
        assert(tv.take(i as int) =~= tv);
    }
    let ghost b2 = parts_of(out@);
    let bio: Option<Vec<char>> = match &s.bio {
        SpeakerBio::Null => None,
        SpeakerBio::Blocks(bs) => Some(chars_of(portable_text_to_plain(bs.as_slice()).as_str())),
        SpeakerBio::Text(t) => Some(chars_of(t.as_str())),
        SpeakerBio::Other(j) => Some(chars_of(j.as_str())),
    };
    match bio {
        Some(t) => {
            let mut b = chars_of("\nBio:\n");
            push_chars(&mut b, &t);
            push_str(&mut b, "\n");
            push_span(&mut out, b, None);
        },
        None => {},
    }
    assert(parts_of(out@) =~= detail_parts(*s, derefs(talks@)));
    out
}

// ── Other choices ───────────────────────────────────────────────────────────
/// An e-mail address as the wizard accepts it: with an `@` and a `.`.
pub fn email_looks_valid(input: &str) -> (r: bool)
    ensures
        r == (input@.contains('@') && input@.contains('.')),
{
    let cs = chars_of(input);
    let mut at = false;
    let mut dot = false;
    let mut i: usize = 0;
    while i < cs.len()
        invariant
            cs@ == input@,
            i <= cs@.len(),
            at == (exists|j: int| 0 <= j < i && cs@[j] == '@'),
            dot == (exists|j: int| 0 <= j < i && cs@[j] == '.'),
        decreases cs@.len() - i,
    {
        if cs[i] == '@' {
            at = true;
        }
        if cs[i] == '.' {
            dot = true;
        }
        i = i + 1;
    }
    at && dot
}

/// An optional answer: an empty one is none.
pub fn non_empty(s: String) -> (r: Option<String>)
    ensures
        s@.len() == 0 ==> r is None,
        s@.len() > 0 ==> r == Some(s),
{
    if s.as_str().is_empty() {
        None
    } else {
        Some(s)
    }
}

/// The flags the wizard offers, in order.
pub fn flag_options() -> (v: Vec<SpeakerFlag>)
    ensures
        v@ == seq![
            SpeakerFlag::Local,
            SpeakerFlag::FirstTime,
            SpeakerFlag::Diverse,
            SpeakerFlag::RequiresFunding,
            SpeakerFlag::Keynote,
            SpeakerFlag::Hidden,
            SpeakerFlag::Internal,
        ],
{
    let v = vec![
        SpeakerFlag::Local,
        SpeakerFlag::FirstTime,
        SpeakerFlag::Diverse,
        SpeakerFlag::RequiresFunding,
        SpeakerFlag::Keynote,
        SpeakerFlag::Hidden,
        SpeakerFlag::Internal,
    ];
    assert(v@ =~= seq![
        SpeakerFlag::Local,
        SpeakerFlag::FirstTime,
        SpeakerFlag::Diverse,
        SpeakerFlag::RequiresFunding,
        SpeakerFlag::Keynote,
        SpeakerFlag::Hidden,
        SpeakerFlag::Internal,
    ]);
    v
}

/// What a broadcast does: sync the audience first when asked, then send
/// when both subject and message are given.
pub fn broadcast_plan(subject: Option<&str>, message: Option<&str>, sync: bool) -> (r: (bool, bool))
    ensures
        r.0 == sync,
        r.1 == (subject is Some && message is Some),
{
    (sync, subject.is_some() && message.is_some())
}

} // verus!
