//! `konf sponsors`: the CRM's arguments, finding a sponsor by name, and the
//! decisions of the interactive sponsor list and detail view.
pub mod email;

use vstd::prelude::*;

use crate::text::{
    byte_prefix, byte_prefix_exec, chars_of, decimal, decimal_exec, join, lower_of, push_chars,
    push_str, str_eq, string_of, texts, to_lower, utf8_len,
};
use crate::types::{
    ActivityType, SortOrder, SpeakerRef, SponsorActivity, SponsorForConference, SponsorSortBy,
    SponsorStatus, SponsorView,
};

verus! {

/// `konf sponsors list`: what the CRM list is asked for.
#[derive(Debug, Clone, PartialEq)]
pub struct ListArgs {
    /// CRM view to use.
    pub view: Option<SponsorView>,
    /// Search across sponsor names, websites, and contact details.
    pub search: Option<String>,
    /// Filter by status.
    pub status: Option<Vec<SponsorStatus>>,
    /// Only my assigned items.
    pub mine: bool,
    /// Filter by organizer (speaker id).
    pub assigned_to: Option<String>,
    /// Only leads without an assignee.
    pub unassigned: bool,
    /// Filter by tags.
    pub tags: Option<Vec<String>>,
    /// Filter by tier ids.
    pub tiers: Option<Vec<String>>,
    /// Sort by field.
    pub sort_by: Option<SponsorSortBy>,
    /// Sort order.
    pub sort_order: Option<SortOrder>,
    /// Only sponsors inactive for this many days or more.
    pub stale_days: Option<u32>,
    /// Only sponsors whose follow-up is due.
    pub due: bool,
    /// Only sponsors with a follow-up scheduled.
    pub has_follow_up: bool,
    /// Only sponsors with a contact e-mail.
    pub has_contact: bool,
    /// Output minimal JSON fields.
    pub compact: bool,
    /// Limit the number of items returned.
    pub limit: Option<usize>,
    /// Output as JSON.
    pub json: bool,
}

impl Default for ListArgs {
    fn default() -> (a: Self)
        ensures
            a.view is None && a.search is None && a.status is None && !a.mine && a.assigned_to is None
                && !a.unassigned && a.tags is None && a.tiers is None && a.sort_by is None
                && a.sort_order is None && a.stale_days is None && !a.due && !a.has_follow_up
                && !a.has_contact && !a.compact && a.limit is None && !a.json,
    {
        ListArgs {
            view: None,
            search: None,
            status: None,
            mine: false,
            assigned_to: None,
            unassigned: false,
            tags: None,
            tiers: None,
            sort_by: None,
            sort_order: None,
            stale_days: None,
            due: false,
            has_follow_up: false,
            has_contact: false,
            compact: false,
            limit: None,
            json: false,
        }
    }
}

impl ListArgs {
    /// Whether the command line narrowed or ordered the list (then it is
    /// printed as a table rather than browsed).
    pub open spec fn spec_has_cli_filters(self) -> bool {
        self.search is Some || self.status is Some || self.assigned_to is Some || self.unassigned
            || self.tags is Some || self.tiers is Some || self.sort_by is Some
            || self.sort_order is Some || self.stale_days is Some || self.due || self.has_follow_up
            || self.has_contact
    }

    /// Whether the command line narrowed or ordered the list.
    pub fn has_cli_filters(&self) -> (r: bool)
        ensures
            r == self.spec_has_cli_filters(),
    {
        self.search.is_some() || self.status.is_some() || self.assigned_to.is_some()
            || self.unassigned || self.tags.is_some() || self.tiers.is_some()
            || self.sort_by.is_some() || self.sort_order.is_some() || self.stale_days.is_some()
            || self.due || self.has_follow_up || self.has_contact
    }
}

/// `konf sponsors contacts`: a new primary (or secondary) contact.
#[derive(Debug, Clone, PartialEq)]
pub struct UpdateContactsArgs {
    pub id: String,
    pub name: String,
    pub email: String,
    /// Add the contact without making it the primary one.
    pub secondary: bool,
}

/// `konf sponsors email`.
#[derive(Debug, Clone, PartialEq)]
pub struct EmailArgs {
    pub id: String,
    /// Template slug to use (interactive picker if omitted).
    pub template: Option<String>,
    /// Override the e-mail subject.
    pub subject: Option<String>,
    /// Use this message body directly (skip template selection).
    pub message: Option<String>,
    /// Open the editor on the message before sending.
    pub edit: bool,
    /// Preview the e-mail without sending.
    pub dry_run: bool,
    /// Output as JSON.
    pub json: bool,
}

/// `konf sponsors create`.
#[derive(Debug, Clone, PartialEq)]
pub struct CreateArgs {
    pub name: String,
    pub website: Option<String>,
    pub contact_name: Option<String>,
    pub contact_email: Option<String>,
    pub status: SponsorStatus,
    pub notes: Option<String>,
}

/// `konf sponsors note`.
#[derive(Debug, Clone, PartialEq)]
pub struct NoteArgs {
    pub id: String,
    pub kind: ActivityType,
    pub description: String,
}

// ── Finding a sponsor by name ───────────────────────────────────────────────
/// The sponsor's organization is named `name`, ignoring case.
pub open spec fn named(s: SponsorForConference, name: Seq<char>) -> bool {
    s.sponsor matches Some(sp) && lower_of(sp.name@) == lower_of(name)
}

/// The sponsors named `name`, in their order.
pub open spec fn named_all(ss: Seq<SponsorForConference>, name: Seq<char>) -> Seq<
    SponsorForConference,
>
    decreases ss.len(),
{
    if ss.len() == 0 {
        seq![]
    } else {
        let rest = named_all(ss.drop_last(), name);
        if named(ss.last(), name) {
            rest.push(ss.last())
        } else {
            rest
        }
    }
}

/// The sponsors whose organization has this name, ignoring case; `None`
/// when there is none.
pub fn find_sponsor_by_name<'a>(sponsors: &'a [SponsorForConference], name: &str) -> (r: Option<
    Vec<&'a SponsorForConference>,
>)
    ensures
        named_all(sponsors@, name@).len() == 0 <==> r is None,
        r matches Some(v) ==> v@.len() == named_all(sponsors@, name@).len() && forall|k: int|
            0 <= k < v@.len() ==> *v@[k] == #[trigger] named_all(sponsors@, name@)[k],
{
    let wanted = chars_of(to_lower(name).as_str());
    let mut out: Vec<&'a SponsorForConference> = Vec::new();
    let mut i: usize = 0;
    assert(sponsors@.take(0) =~= Seq::<SponsorForConference>::empty());
    while i < sponsors.len()
        invariant
            i <= sponsors@.len(),
            wanted@ == lower_of(name@),
            out@.len() == named_all(sponsors@.take(i as int), name@).len(),
            forall|k: int|
                0 <= k < out@.len() ==> *out@[k] == named_all(sponsors@.take(i as int), name@)[k],
        decreases sponsors@.len() - i,
    {
        assert(sponsors@.take(i + 1).drop_last() =~= sponsors@.take(i as int));
        let hit = match &sponsors[i].sponsor {
            Some(sp) => {
                let l = chars_of(to_lower(sp.name.as_str()).as_str());
                crate::text::chars_eq(&l, &wanted)
            },
            None => false,
        };
        if hit {
            out.push(&sponsors[i]);
        }
        i = i + 1;
    }
    assert(sponsors@.take(i as int) =~= sponsors@);
    if out.len() == 0 {
        None
    } else {
        Some(out)
    }
}

/// What a name given for a sponsor resolves to, from the sponsors named so:
/// the one id, or why there is none.
pub fn resolve_by_name(id_or_name: &str, matches: &[&SponsorForConference]) -> (r: Result<
    String,
    String,
>)
    ensures
        matches@.len() == 1 ==> (r matches Ok(id) && id@ == matches@[0].id@),
        matches@.len() == 0 ==> (r matches Err(m) && m@ == "No sponsor found matching '"@
            + id_or_name@ + "' (and it is not a valid ID)"@),
        matches@.len() > 1 ==> (r matches Err(m) && m@ == "Multiple sponsors found matching '"@
            + id_or_name@ + "'. Please use exact ID."@),
{
    if matches.len() == 1 {
        Ok(string_of(&chars_of(matches[0].id.as_str())))
    } else if matches.len() == 0 {
        let mut b = chars_of("No sponsor found matching '");
        push_str(&mut b, id_or_name);
        push_str(&mut b, "' (and it is not a valid ID)");
        Err(string_of(&b))
    } else {
        let mut b = chars_of("Multiple sponsors found matching '");
        push_str(&mut b, id_or_name);
        push_str(&mut b, "'. Please use exact ID.");
        Err(string_of(&b))
    }
}

// ── The interactive list ────────────────────────────────────────────────────
/// The stages the menus offer, in order.
pub open spec fn menu_statuses() -> Seq<SponsorStatus> {
    seq![
        SponsorStatus::Prospect,
        SponsorStatus::Contacted,
        SponsorStatus::Negotiating,
        SponsorStatus::ClosedWon,
        SponsorStatus::ClosedLost,
    ]
}

/// The sort fields the menu offers, in order.
pub open spec fn menu_sort_fields() -> Seq<SponsorSortBy> {
    seq![
        SponsorSortBy::LastActivity,
        SponsorSortBy::FollowUp,
        SponsorSortBy::Stale,
        SponsorSortBy::Value,
        SponsorSortBy::Name,
        SponsorSortBy::CreatedAt,
    ]
}

/// The stages the menus offer.
pub fn status_options() -> (v: Vec<SponsorStatus>)
    ensures
        v@ == menu_statuses(),
{
    let v = vec![
        SponsorStatus::Prospect,
        SponsorStatus::Contacted,
        SponsorStatus::Negotiating,
        SponsorStatus::ClosedWon,
        SponsorStatus::ClosedLost,
    ];
    assert(v@ =~= menu_statuses());
    v
}

/// The sort fields the menu offers.
pub fn sort_field_options() -> (v: Vec<SponsorSortBy>)
    ensures
        v@ == menu_sort_fields(),
{
    let v = vec![
        SponsorSortBy::LastActivity,
        SponsorSortBy::FollowUp,
        SponsorSortBy::Stale,
        SponsorSortBy::Value,
        SponsorSortBy::Name,
        SponsorSortBy::CreatedAt,
    ];
    assert(v@ =~= menu_sort_fields());
    v
}

/// The parts of the list's filter summary.
pub open spec fn summary_parts(a: ListArgs) -> Seq<Seq<char>> {
    let p0: Seq<Seq<char>> = match a.status {
        Some(st) => if st@.len() > 0 {
            seq!["status: "@ + decimal(st@.len())]
        } else {
            seq![]
        },
        None => seq![],
    };
    let p1 = if a.mine {
        p0.push("mine"@)
    } else {
        p0
    };
    let p2 = if a.unassigned {
        p1.push("unassigned"@)
    } else {
        p1
    };
    let p3 = if a.due {
        p2.push("due"@)
    } else {
        p2
    };
    let p4 = if a.has_follow_up {
        p3.push("has-follow-up"@)
    } else {
        p3
    };
    match a.stale_days {
        Some(d) => p4.push("stale: >"@ + decimal(d as nat) + "d"@),
        None => p4,
    }
}

/// The filter summary: its parts joined, or `all`.
pub open spec fn summary_text(a: ListArgs) -> Seq<char> {
    let parts = summary_parts(a);
    if parts.len() == 0 {
        "all"@
    } else {
        join(parts, ", "@)
    }
}

/// The filter summary of the interactive list.
pub fn list_summary(a: &ListArgs) -> (r: String)
    ensures
        r@ == summary_text(*a),
{
    let mut parts: Vec<String> = Vec::new();
    match &a.status {
        Some(st) => {
            if st.len() > 0 {
                let mut b = chars_of("status: ");
                push_chars(&mut b, &decimal_exec(st.len() as u64));
                parts.push(string_of(&b));
            }
        },
        None => {},
    }
    let ghost p0 = parts@.map_values(|s: String| s@);
    if a.mine {
        parts.push(string_of(&chars_of("mine")));
    }
    assert(parts@.map_values(|s: String| s@) =~= (if a.mine {
        p0.push("mine"@)
    } else {
        p0
    }));
    let ghost p1 = parts@.map_values(|s: String| s@);
    if a.unassigned {
        parts.push(string_of(&chars_of("unassigned")));
    }
    assert(parts@.map_values(|s: String| s@) =~= (if a.unassigned {
        p1.push("unassigned"@)
    } else {
        p1
    }));
    let ghost p2 = parts@.map_values(|s: String| s@);
    if a.due {
        parts.push(string_of(&chars_of("due")));
    }
    assert(parts@.map_values(|s: String| s@) =~= (if a.due {
        p2.push("due"@)
    } else {
        p2
    }));
    let ghost p3 = parts@.map_values(|s: String| s@);
    if a.has_follow_up {
        parts.push(string_of(&chars_of("has-follow-up")));
    }
    assert(parts@.map_values(|s: String| s@) =~= (if a.has_follow_up {
        p3.push("has-follow-up"@)
    } else {
        p3
    }));
    let ghost p4 = parts@.map_values(|s: String| s@);
    match a.stale_days {
        Some(d) => {
            let mut b = chars_of("stale: >");
            push_chars(&mut b, &decimal_exec(d as u64));
            push_str(&mut b, "d");
            parts.push(string_of(&b));
        },
        None => {},
    }
    assert(parts@.map_values(|s: String| s@) =~= summary_parts(*a));
    if parts.len() == 0 {
        string_of(&chars_of("all"))
    } else {
        string_of(&crate::text::join_strings(&parts, ", "))
    }
}

/// Which stages the filter menu starts ticked.
pub fn status_defaults(a: &ListArgs) -> (v: Vec<bool>)
    ensures
        v@.len() == 5,
        forall|i: int|
            0 <= i < 5 ==> v@[i] == (a.status matches Some(st) && st@.contains(menu_statuses()[i])),
{
    let opts = status_options();
    let mut v: Vec<bool> = Vec::new();
    let mut i: usize = 0;
    while i < opts.len()
        invariant
            opts@ == menu_statuses(),
            i <= 5,
            v@.len() == i,
            forall|j: int|
                0 <= j < i ==> v@[j] == (a.status matches Some(st) && st@.contains(
                    menu_statuses()[j],
                )),
        decreases 5 - i,
    {
        let b = match &a.status {
            Some(st) => status_in(st, opts[i]),
            None => false,
        };
        v.push(b);
        i = i + 1;
    }
    v
}

fn status_in(v: &Vec<SponsorStatus>, s: SponsorStatus) -> (r: bool)
    ensures
        r == v@.contains(s),
{
    let mut i: usize = 0;
    while i < v.len()
        invariant
            i <= v@.len(),
            forall|j: int| 0 <= j < i ==> v@[j] != s,
        decreases v@.len() - i,
    {
        if v[i] == s {
            assert(v@[i as int] == s);
            return true;
        }
        i = i + 1;
    }
    false
}

/// The stages ticked in the menu: none ticked means no stage filter.
pub fn statuses_from_selection(selected: &[usize]) -> (r: Option<Vec<SponsorStatus>>)
    requires
        forall|i: int| 0 <= i < selected@.len() ==> selected@[i] < 5,
    ensures
        selected@.len() == 0 ==> r is None,
        selected@.len() > 0 ==> (r matches Some(v) && v@ == selected@.map_values(
            |k: usize| menu_statuses()[k as int],
        )),
{
    if selected.len() == 0 {
        return None;
    }
    let opts = status_options();
    let mut v: Vec<SponsorStatus> = Vec::new();
    let mut i: usize = 0;
    while i < selected.len()
        invariant
            opts@ == menu_statuses(),
            forall|j: int| 0 <= j < selected@.len() ==> selected@[j] < 5,
            i <= selected@.len(),
            v@ == selected@.take(i as int).map_values(|k: usize| menu_statuses()[k as int]),
        decreases selected@.len() - i,
    {
        v.push(opts[selected[i]]);
        i = i + 1;
        assert(selected@.take(i as int).map_values(|k: usize| menu_statuses()[k as int])
            =~= selected@.take(i - 1).map_values(|k: usize| menu_statuses()[k as int]).push(
            menu_statuses()[selected@[i - 1] as int],
        ));
    }
    assert(selected@.take(i as int) =~= selected@);
    Some(v)
}

/// Where the sort menu starts: the current field, else the first.
pub fn sort_default(by: Option<SponsorSortBy>) -> (i: usize)
    ensures
        i < 6,
        by matches Some(b) ==> menu_sort_fields()[i as int] == b,
        by is None ==> i == 0,
{
    match by {
        None => 0,
        Some(SponsorSortBy::LastActivity) => 0,
        Some(SponsorSortBy::FollowUp) => 1,
        Some(SponsorSortBy::Stale) => 2,
        Some(SponsorSortBy::Value) => 3,
        Some(SponsorSortBy::Name) => 4,
        Some(SponsorSortBy::CreatedAt) => 5,
    }
}

/// Where the direction menu starts: descending unless ascending is set.
pub fn order_default(o: Option<SortOrder>) -> (i: usize)
    ensures
        i == (if o == Some(SortOrder::Asc) {
            1usize
        } else {
            0usize
        }),
{
    match o {
        Some(SortOrder::Asc) => 1,
        _ => 0,
    }
}

/// What a choice in the sponsor list leads to.
#[derive(Debug, Clone, Copy, PartialEq, Eq, Structural)]
pub enum ListStep {
    /// The filter menu.
    FilterMenu,
    /// Read the list again.
    Refresh,
    /// The detail view of the sponsor at this position.
    Detail(usize),
    /// Leaving the list.
    Quit,
}

/// What a choice in the sponsor list leads to: the first entry opens the
/// filter menu, the second refreshes, the others open a sponsor.
pub fn list_step(selection: Option<usize>) -> (s: ListStep)
    ensures
        s == (match selection {
            Some(0) => ListStep::FilterMenu,
            Some(1) => ListStep::Refresh,
            Some(i) => ListStep::Detail((i - 2) as usize),
            None => ListStep::Quit,
        }),
{
    match selection {
        Some(0) => ListStep::FilterMenu,
        Some(1) => ListStep::Refresh,
        Some(i) => ListStep::Detail(i - 2),
        None => ListStep::Quit,
    }
}

/// Which row the sponsor list starts on: the one after the cursor (two menu
/// entries come first), within the items.
pub fn list_default(cursor: usize, n_items: usize) -> (i: usize)
    requires
        n_items > 0,
    ensures
        i == (if cursor + 2 <= n_items - 1 {
            cursor + 2
        } else {
            n_items - 1
        }),
{
    if cursor >= n_items - 1 || n_items - 1 - cursor < 2 {
        n_items - 1
    } else {
        cursor + 2
    }
}

/// The list's cached rows: whether they can be shown again without a fetch,
/// and where the cursor is.
#[derive(Debug, Clone, Copy, PartialEq, Eq, Structural)]
pub struct Roster {
    pub cached: bool,
    pub cursor: usize,
}

/// What happened in the sponsor list.
#[derive(Debug, Clone, Copy, PartialEq, Eq, Structural)]
pub enum RosterEvent {
    /// The rows were fetched.
    Fetched,
    /// The fetched list was empty, and the filter menu was shown.
    EmptyFiltered,
    /// A choice in the list, as `list_step` reads it.
    Chosen(ListStep),
    /// A detail view closed: where its cursor was, and whether it wrote.
    DetailClosed(usize, bool),
}

/// The list after an event: the cache is dropped whenever the filters
/// change, a write happens, or a refresh is asked for, and kept otherwise.
pub open spec fn roster_next(r: Roster, e: RosterEvent) -> Roster {
    match e {
        RosterEvent::Fetched => Roster { cached: true, ..r },
        RosterEvent::EmptyFiltered => Roster { cached: false, cursor: 0 },
        RosterEvent::Chosen(ListStep::FilterMenu) => Roster { cached: false, cursor: 0 },
        RosterEvent::Chosen(ListStep::Refresh) => Roster { cached: false, ..r },
        RosterEvent::Chosen(ListStep::Detail(i)) => Roster { cursor: i, ..r },
        RosterEvent::Chosen(ListStep::Quit) => r,
        RosterEvent::DetailClosed(c, wrote) => Roster { cursor: c, cached: r.cached && !wrote },
    }
}

impl Roster {
    /// The list before its first fetch.
    pub fn new() -> (r: Roster)
        ensures
            !r.cached && r.cursor == 0,
    {
        Roster { cached: false, cursor: 0 }
    }

    /// Whether the rows must be fetched before they are shown.
    pub fn needs_fetch(&self) -> (b: bool)
        ensures
            b == !self.cached,
    {
        !self.cached
    }

    /// Takes an event.
    pub fn step(&mut self, e: RosterEvent)
        ensures
            *final(self) == roster_next(*old(self), e),
    {
        match e {
            RosterEvent::Fetched => {
                self.cached = true;
            },
            RosterEvent::EmptyFiltered | RosterEvent::Chosen(ListStep::FilterMenu) => {
                self.cached = false;
                self.cursor = 0;
            },
            RosterEvent::Chosen(ListStep::Refresh) => {
                self.cached = false;
            },
            RosterEvent::Chosen(ListStep::Detail(i)) => {
                self.cursor = i;
            },
            RosterEvent::Chosen(ListStep::Quit) => {},
            RosterEvent::DetailClosed(c, wrote) => {
                self.cursor = c;
                self.cached = self.cached && !wrote;
            },
        }
    }
}

/// A write in a detail view drops the cached list, so the next showing
/// fetches it; a detail view without writes keeps it.
pub proof fn lemma_roster_write_refetches(r: Roster, c: usize, wrote: bool)
    ensures
        wrote ==> !roster_next(r, RosterEvent::DetailClosed(c, wrote)).cached,
        !wrote ==> roster_next(r, RosterEvent::DetailClosed(c, wrote)).cached == r.cached,
{
}

// ── The detail view ─────────────────────────────────────────────────────────
/// The sponsor records opened in a detail session, and what is to be shown.
#[derive(Debug, Clone, PartialEq)]
pub struct DetailSession {
    /// The ids of the listed sponsors.
    pub ids: Vec<String>,
    /// The shown position.
    pub idx: usize,
    /// The ids whose records are held.
    pub held: Vec<String>,
    /// A write happened in this session.
    pub mutated: bool,
    /// The shown record must be read again.
    pub invalidate_current: bool,
}

/// A well-formed session: the shown position is a listed sponsor.
pub open spec fn session_wf(s: DetailSession) -> bool {
    s.idx < s.ids@.len()
}

/// The ids held, as texts.
pub open spec fn held_ids(s: DetailSession) -> Seq<Seq<char>> {
    texts(s.held@)
}

/// Whether the record for `id` is held.
pub open spec fn is_held(s: DetailSession, id: Seq<char>) -> bool {
    held_ids(s).contains(id)
}

fn holds(held: &Vec<String>, id: &str) -> (r: bool)
    ensures
        r == texts(held@).contains(id@),
{
    let ghost hv = texts(held@);
    let mut i: usize = 0;
    while i < held.len()
        invariant
            i <= held@.len(),
            hv == texts(held@),
            forall|j: int| 0 <= j < i ==> hv[j] != id@,
        decreases held@.len() - i,
    {
        if str_eq(held[i].as_str(), id) {
            assert(hv[i as int] == id@);
            return true;
        }
        i = i + 1;
    }
    false
}

fn without(held: &Vec<String>, id: &str) -> (r: Vec<String>)
    ensures
        forall|x: Seq<char>|
            #[trigger] texts(r@).contains(x) <==> (x != id@ && texts(held@).contains(x)),
{
    let ghost hv = texts(held@);
    let mut kept: Vec<String> = Vec::new();
    let mut i: usize = 0;
    assert(hv.take(0) =~= Seq::<Seq<char>>::empty());
    assert(texts(kept@) =~= Seq::<Seq<char>>::empty());
    while i < held.len()
        invariant
            i <= held@.len(),
            hv == texts(held@),
            forall|x: Seq<char>|
                #[trigger] texts(kept@).contains(x) <==> (x != id@ && hv.take(
                    i as int,
                ).contains(x)),
        decreases held@.len() - i,
    {
        let ghost before = texts(kept@);
        assert(hv.take(i + 1) =~= hv.take(i as int).push(hv[i as int]));
        let keep = !str_eq(held[i].as_str(), id);
        if keep {
            kept.push(held[i].clone());
            assert(texts(kept@) =~= before.push(hv[i as int]));
        }
        assert forall|x: Seq<char>|
            #[trigger] texts(kept@).contains(x) <==> (x != id@ && hv.take(i + 1).contains(x)) by {
            vstd::seq_lib::lemma_seq_contains_after_push(hv.take(i as int), hv[i as int], x);
            if keep {
                vstd::seq_lib::lemma_seq_contains_after_push(before, hv[i as int], x);
            }
        }
        i = i + 1;
    }
    assert(hv.take(i as int) =~= hv);
    kept
}

/// A key in the detail view.
#[derive(Debug, Clone, Copy, PartialEq, Eq, Structural)]
pub enum DetailKey {
    Prev,
    Next,
    /// A key that asked for a write or a re-read of this record, done or
    /// not: `true` when a write happened, `false` for a refresh or a
    /// cancelled write.
    Changed(bool),
    Refresh,
    Back,
}

impl DetailSession {
    /// A session on the listed sponsors, at a position.
    pub fn new(ids: Vec<String>, start: usize) -> (s: DetailSession)
        requires
            start < ids@.len(),
        ensures
            s.ids == ids,
            s.idx == start,
            s.held@.len() == 0,
            !s.mutated,
            !s.invalidate_current,
    {
        DetailSession {
            ids,
            idx: start,
            held: Vec::new(),
            mutated: false,
            invalidate_current: false,
        }
    }

    /// Before showing: whether the shown record must be fetched. A record
    /// held and not invalidated is shown as held; otherwise it is fetched
    /// (and then held, which `fetched` records).
    pub fn must_fetch(&mut self) -> (b: bool)
        requires
            session_wf(*old(self)),
        ensures
            session_wf(*final(self)),
            final(self).ids == old(self).ids,
            final(self).idx == old(self).idx,
            final(self).mutated == old(self).mutated,
            !final(self).invalidate_current,
            b == (old(self).invalidate_current || !is_held(*old(self), old(self).ids@[old(self).idx as int]@)),
            forall|id: Seq<char>|
                id != old(self).ids@[old(self).idx as int]@ ==> (is_held(*final(self), id)
                    == is_held(*old(self), id)),
            !b ==> is_held(*final(self), old(self).ids@[old(self).idx as int]@),
            b ==> !is_held(*final(self), old(self).ids@[old(self).idx as int]@),
    {
        let id = self.ids[self.idx].clone();
        if self.invalidate_current {
            let kept = without(&self.held, id.as_str());
            self.held = kept;
            self.invalidate_current = false;
            return true;
        }
        !holds(&self.held, id.as_str())
    }

    /// After a fetch: the shown record is held.
    pub fn fetched(&mut self)
        requires
            session_wf(*old(self)),
        ensures
            session_wf(*final(self)),
            final(self).ids == old(self).ids,
            final(self).idx == old(self).idx,
            final(self).mutated == old(self).mutated,
            final(self).invalidate_current == old(self).invalidate_current,
            held_ids(*final(self)) == held_ids(*old(self)).push(old(self).ids@[old(self).idx as int]@),
    {
        let id = self.ids[self.idx].clone();
        let ghost before = held_ids(*self);
        self.held.push(id);
        assert(held_ids(*self) =~= before.push(id@));
    }

    /// Takes a key: `true` when the session ends.
    pub fn on_key(&mut self, k: DetailKey) -> (done: bool)
        requires
            session_wf(*old(self)),
        ensures
            session_wf(*final(self)),
            final(self).ids == old(self).ids,
            final(self).held == old(self).held,
            done == (k == DetailKey::Back),
            final(self).idx == (match k {
                DetailKey::Prev => if old(self).idx > 0 {
                    (old(self).idx - 1) as usize
                } else {
                    0
                },
                DetailKey::Next => if old(self).idx + 1 < old(self).ids@.len() {
                    (old(self).idx + 1) as usize
                } else {
                    old(self).idx
                },
                _ => old(self).idx,
            }),
            final(self).mutated == (old(self).mutated || k == DetailKey::Changed(true)),
            final(self).invalidate_current == (old(self).invalidate_current || k
                == DetailKey::Changed(true) || k == DetailKey::Refresh),
    {
        match k {
            DetailKey::Prev => {
                if self.idx > 0 {
                    self.idx = self.idx - 1;
                }
                false
            },
            DetailKey::Next => {
                if self.idx < self.ids.len() - 1 {
                    self.idx = self.idx + 1;
                }
                false
            },
            DetailKey::Changed(wrote) => {
                if wrote {
                    self.mutated = true;
                    self.invalidate_current = true;
                }
                false
            },
            DetailKey::Refresh => {
                self.invalidate_current = true;
                false
            },
            DetailKey::Back => true,
        }
    }
}

/// Paging away and back to a record without a write shows it as held; after
/// a write to it, it is fetched again.
pub proof fn lemma_session_cache(s: DetailSession, wrote: bool)
    requires
        session_wf(s),
        !s.invalidate_current,
        is_held(s, s.ids@[s.idx as int]@),
    ensures
        ({
            let after = DetailSession {
                mutated: s.mutated || wrote,
                invalidate_current: s.invalidate_current || wrote,
                ..s
            };
            (after.invalidate_current || !is_held(after, after.ids@[after.idx as int]@)) == wrote
        }),
{
}

// ── Detail-view choices ─────────────────────────────────────────────────────
/// Where the stage menu starts: the sponsor's stage, else the first.
pub fn stage_default(current: SponsorStatus) -> (i: usize)
    ensures
        i < 5,
        current != SponsorStatus::Unknown ==> menu_statuses()[i as int] == current,
        current == SponsorStatus::Unknown ==> i == 0,
{
    match current {
        SponsorStatus::Prospect => 0,
        SponsorStatus::Contacted => 1,
        SponsorStatus::Negotiating => 2,
        SponsorStatus::ClosedWon => 3,
        SponsorStatus::ClosedLost => 4,
        SponsorStatus::Unknown => 0,
    }
}

/// The labels of the organizer menu: unassigned first, then the organizers.
pub fn organizer_labels(organizers: &[SpeakerRef]) -> (v: Vec<String>)
    ensures
        v@.map_values(|s: String| s@) == seq!["<Unassigned>"@] + organizers@.map_values(
            |o: SpeakerRef| o.name@,
        ),
{
    let mut v: Vec<String> = Vec::new();
    v.push(string_of(&chars_of("<Unassigned>")));
    let mut i: usize = 0;
    while i < organizers.len()
        invariant
            i <= organizers@.len(),
            v@.map_values(|s: String| s@) == seq!["<Unassigned>"@] + organizers@.take(
                i as int,
            ).map_values(|o: SpeakerRef| o.name@),
        decreases organizers@.len() - i,
    {
        let ghost before = v@.map_values(|s: String| s@);
        v.push(string_of(&chars_of(organizers[i].name.as_str())));
        i = i + 1;
        assert(v@.map_values(|s: String| s@) =~= before.push(organizers@[i - 1].name@));
        assert(organizers@.take(i as int).map_values(|o: SpeakerRef| o.name@) =~= organizers@.take(
            i - 1,
        ).map_values(|o: SpeakerRef| o.name@).push(organizers@[i - 1].name@));
    }
    assert(organizers@.take(i as int) =~= organizers@);
    v
}

/// Where the organizer menu starts: the assigned organizer (after the
/// unassigned entry), else the unassigned entry.
pub fn organizer_default(organizers: &[SpeakerRef], assigned: Option<&SpeakerRef>) -> (i: usize)
    ensures
        i <= organizers@.len(),
        i > 0 ==> (assigned matches Some(a) && organizers@[i - 1].id@ == a.id@ && forall|j: int|
            0 <= j < i - 1 ==> organizers@[j].id@ != a.id@),
        i == 0 ==> (assigned is None || forall|j: int|
            0 <= j < organizers@.len() ==> organizers@[j].id@ != assigned->0.id@),
{
    let a = match assigned {
        Some(a) => a,
        None => {
            return 0;
        },
    };
    let mut j: usize = 0;
    while j < organizers.len()
        invariant
            assigned == Some(a),
            j <= organizers@.len(),
            forall|k: int| 0 <= k < j ==> organizers@[k].id@ != a.id@,
        decreases organizers@.len() - j,
    {
        if str_eq(organizers[j].id.as_str(), a.id.as_str()) {
            return j + 1;
        }
        j = j + 1;
    }
    0
}

/// The organizer a choice assigns: none for the first entry.
pub fn organizer_choice(organizers: &[SpeakerRef], choice: usize) -> (r: Option<String>)
    requires
        choice <= organizers@.len(),
    ensures
        choice == 0 ==> r is None,
        choice > 0 ==> (r matches Some(id) && id@ == organizers@[choice - 1].id@),
{
    if choice == 0 {
        None
    } else {
        Some(string_of(&chars_of(organizers[choice - 1].id.as_str())))
    }
}

/// Whether an activity was logged by a person (and may be deleted):
/// notes, e-mails, calls and meetings; system logs are protected.
pub open spec fn is_deletable(a: SponsorActivity) -> bool {
    a.activity_type == ActivityType::Note || a.activity_type == ActivityType::Email
        || a.activity_type == ActivityType::Call || a.activity_type == ActivityType::Meeting
}

/// The activities that may be deleted, in order.
pub open spec fn deletable(acts: Seq<SponsorActivity>) -> Seq<SponsorActivity>
    decreases acts.len(),
{
    if acts.len() == 0 {
        seq![]
    } else {
        let rest = deletable(acts.drop_last());
        if is_deletable(acts.last()) {
            rest.push(acts.last())
        } else {
            rest
        }
    }
}

/// An activity is offered for deletion exactly when it is among the given
/// ones and was logged by a person: a note, an e-mail, a call or a meeting.
/// Stage changes and kinds this client does not know are never offered.
pub proof fn lemma_deletable_exactly_logged(acts: Seq<SponsorActivity>, a: SponsorActivity)
    ensures
        deletable(acts).contains(a) <==> (acts.contains(a) && (a.activity_type
            == ActivityType::Note || a.activity_type == ActivityType::Email || a.activity_type
            == ActivityType::Call || a.activity_type == ActivityType::Meeting)),
    decreases acts.len(),
{
    if acts.len() > 0 {
        let rest = acts.drop_last();
        lemma_deletable_exactly_logged(rest, a);
        let last = acts.last();
        assert(acts =~= rest.push(last));
        assert(acts.contains(a) <==> (rest.contains(a) || a == last)) by {
            if acts.contains(a) {
                let w = choose|w: int| 0 <= w < acts.len() && acts[w] == a;
                if w < rest.len() {
                    assert(rest[w] == a);
                }
            }
            if rest.contains(a) {
                let w = choose|w: int| 0 <= w < rest.len() && rest[w] == a;
                assert(acts[w] == a);
            }
            if a == last {
                assert(acts[acts.len() - 1] == a);
            }
        }
        let d = deletable(rest);
        if is_deletable(last) {
            assert(d.push(last).contains(a) <==> (d.contains(a) || a == last)) by {
                if d.push(last).contains(a) {
                    let w = choose|w: int| 0 <= w < d.push(last).len() && d.push(last)[w] == a;
                    if w < d.len() {
                        assert(d[w] == a);
                    }
                }
                if d.contains(a) {
                    let w = choose|w: int| 0 <= w < d.len() && d[w] == a;
                    assert(d.push(last)[w] == a);
                }
                if a == last {
                    assert(d.push(last)[d.len() as int] == a);
                }
            }
        }
    }
}

/// Logging one more activity adds it at the end of what may be deleted when
/// it is a note, an e-mail, a call or a meeting, and changes nothing else;
/// the activities offered keep the order in which they were logged.
pub proof fn lemma_deletable_append(acts: Seq<SponsorActivity>, a: SponsorActivity)
    ensures
        deletable(acts.push(a)) == if a.activity_type == ActivityType::Note || a.activity_type
            == ActivityType::Email || a.activity_type == ActivityType::Call || a.activity_type
            == ActivityType::Meeting {
            deletable(acts).push(a)
        } else {
            deletable(acts)
        },
{
    assert(acts.push(a).drop_last() =~= acts);
}

/// The activities that may be deleted.
pub fn deletable_activities<'a>(acts: &'a [SponsorActivity]) -> (r: Vec<&'a SponsorActivity>)
    ensures
        r@.len() == deletable(acts@).len(),
        forall|k: int| 0 <= k < r@.len() ==> *r@[k] == #[trigger] deletable(acts@)[k],
{
    let mut out: Vec<&'a SponsorActivity> = Vec::new();
    let mut i: usize = 0;
    assert(acts@.take(0) =~= Seq::<SponsorActivity>::empty());
    while i < acts.len()
        invariant
            i <= acts@.len(),
            out@.len() == deletable(acts@.take(i as int)).len(),
            forall|k: int| 0 <= k < out@.len() ==> *out@[k] == deletable(acts@.take(i as int))[k],
        decreases acts@.len() - i,
    {
        assert(acts@.take(i + 1).drop_last() =~= acts@.take(i as int));
        let t = acts[i].activity_type;
        if t == ActivityType::Note || t == ActivityType::Email || t == ActivityType::Call || t
            == ActivityType::Meeting {
            out.push(&acts[i]);
        }
        i = i + 1;
    }
    assert(acts@.take(i as int) =~= acts@);
    out
}

/// The description as the delete menu cuts it: its first 40 bytes, `None`
/// where that cut falls inside a character.
pub open spec fn description_cut(d: Seq<char>) -> Option<Seq<char>> {
    if utf8_len(d) <= 40 {
        Some(d)
    } else {
        byte_prefix(d, 40)
    }
}

/// An activity as the delete menu lists it: kind, date (the first ten bytes
/// of its time) and the start of its description; `None` where those cuts
/// fall outside the text or inside a character.
pub open spec fn activity_label_text(a: SponsorActivity) -> Option<Seq<char>> {
    match (byte_prefix(a.created_at@, 10), description_cut(a.description@)) {
        (Some(date), Some(desc)) => Some(
            "["@ + a.activity_type.spec_name() + "] "@ + date + " - "@ + desc + "..."@,
        ),
        _ => None,
    }
}

/// An activity as the delete menu lists it; `None` where the text is too
/// short or a cut falls inside a character.
pub fn activity_label(a: &SponsorActivity) -> (r: Option<String>)
    ensures
        match r {
            Some(s) => activity_label_text(*a) == Some(s@),
            None => activity_label_text(*a) is None,
        },
{
    let created = chars_of(a.created_at.as_str());
    let date = match byte_prefix_exec(&created, 10) {
        Some(d) => d,
        None => {
            return None;
        },
    };
    let desc_chars = chars_of(a.description.as_str());
    let desc: Vec<char> = if crate::text::utf8_len_at_most(&desc_chars, 40) {
        desc_chars
    } else {
        match byte_prefix_exec(&desc_chars, 40) {
            Some(d) => d,
            None => {
                return None;
            },
        }
    };
    let mut b = chars_of("[");
    push_str(&mut b, a.activity_type.name());
    push_str(&mut b, "] ");
    push_chars(&mut b, &date);
    push_str(&mut b, " - ");
    push_chars(&mut b, &desc);
    push_str(&mut b, "...");
    Some(string_of(&b))
}

} // verus!
