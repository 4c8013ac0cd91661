//! `konf proposals`: filtering and ordering the list, its rows and summary,
//! the filter menu's choices, and the review prompts' defaults.
use vstd::prelude::*;

use crate::display::proposal::{pad_and_colorize_status, status_paint, status_paint_of};
use crate::sort::{KeyView, SortKey, apply_permutation, is_stable_sorted, key_views, stable_sort_indices};
use crate::style::{Paint, Part, Span, parts_of, printed, push_span, render};
use crate::text::{
    chars_of, contains_exec, contains_seq, decimal, decimal_exec, eq_ascii_nocase,
    eq_ignore_ascii_case, join, lower_of, occurs_at, pad_right, push_chars, push_padded, push_str, str_eq,
    string_of, to_lower,
};
use crate::types::proposal::{
    Proposal, ProposalFormat, ProposalSortBy, ProposalStatus, Review, ReviewComment, ReviewScore,
    ReviewStatus, SortOrder,
};
use crate::types::SpeakerSummary;
use crate::ui::{truncate, truncated};

verus! {

/// The header above the plain proposal list.
pub const TABLE_HEADER: &'static str = "STATUS       FORMAT           TITLE · SPEAKER";

/// The filters and order of the interactive proposal list.
#[derive(Debug, Clone, PartialEq)]
pub struct Filters {
    pub search: Option<String>,
    pub statuses: Vec<ProposalStatus>,
    pub formats: Vec<ProposalFormat>,
    pub sort_by: ProposalSortBy,
    pub sort_order: SortOrder,
}

/// `konf admin proposals list`.
#[derive(Debug, Clone, PartialEq)]
pub struct ListArgs {
    pub status: Option<Vec<ProposalStatus>>,
    pub format: Option<Vec<ProposalFormat>>,
    /// Search in titles and speaker names.
    pub search: Option<String>,
    pub review_status: Option<ReviewStatus>,
    /// Only proposals without a review.
    pub unreviewed: bool,
    pub sort_by: ProposalSortBy,
    pub sort_order: SortOrder,
    pub compact: bool,
    pub limit: Option<usize>,
    pub json: bool,
}

impl ListArgs {
    /// Whether the command line narrowed or reordered the list: a status, a
    /// format, a search, a review state, only unreviewed ones, or an order
    /// other than by creation ascending.
    pub open spec fn spec_has_cli_filters(self) -> bool {
        self.status is Some || self.format is Some || self.search is Some
            || self.review_status is Some || self.unreviewed || self.sort_by
            != ProposalSortBy::Created || self.sort_order != SortOrder::Asc
    }

    /// Whether the command line narrowed or reordered the list.
    pub fn has_cli_filters(&self) -> (r: bool)
        ensures
            r == self.spec_has_cli_filters(),
    {
        self.status.is_some() || self.format.is_some() || self.search.is_some()
            || self.review_status.is_some() || self.unreviewed || self.sort_by
            != ProposalSortBy::Created || self.sort_order != SortOrder::Asc
    }
}

impl Default for Filters {
    fn default() -> (f: Self)
        ensures
            f.search is None,
            f.statuses@.len() == 0,
            f.formats@.len() == 0,
            f.sort_by == ProposalSortBy::Created,
            f.sort_order == SortOrder::Asc,
    {
        Filters {
            search: None,
            statuses: Vec::new(),
            formats: Vec::new(),
            sort_by: ProposalSortBy::Created,
            sort_order: SortOrder::Asc,
        }
    }
}

// ── The summary line ────────────────────────────────────────────────────────
/// The statuses part of the summary.
pub open spec fn status_part(f: Filters) -> Seq<char> {
    if f.statuses@.len() == 0 {
        "all statuses"@
    } else {
        join(f.statuses@.map_values(|s: ProposalStatus| s.spec_label()), ", "@)
    }
}

/// The formats part of the summary.
pub open spec fn format_part(f: Filters) -> Seq<char> {
    if f.formats@.len() == 0 {
        "all formats"@
    } else {
        join(f.formats@.map_values(|x: ProposalFormat| x.spec_label()), ", "@)
    }
}

/// The arrow of a sort order.
pub open spec fn order_arrow(o: SortOrder) -> Seq<char> {
    if o == SortOrder::Asc {
        "↑"@
    } else {
        "↓"@
    }
}

/// The one-line summary of the filters.
pub open spec fn summary_text(f: Filters) -> Seq<char> {
    "status: "@ + status_part(f) + " | format: "@ + format_part(f) + " | sort: "@
        + f.sort_by.spec_debug_name() + order_arrow(f.sort_order)
}

fn join_labels_status(v: &Vec<ProposalStatus>) -> (r: Vec<char>)
    ensures
        r@ == join(v@.map_values(|s: ProposalStatus| s.spec_label()), ", "@),
{
    let mut names: Vec<String> = Vec::new();
    let mut i: usize = 0;
    while i < v.len()
        invariant
            i <= v@.len(),
            names@.map_values(|s: String| s@) == v@.take(i as int).map_values(
                |s: ProposalStatus| s.spec_label(),
            ),
        decreases v@.len() - i,
    {
        let ghost prev = names@.map_values(|s: String| s@);
        names.push(v[i].to_string());
        i = i + 1;
        assert(names@.map_values(|s: String| s@) =~= prev.push(v@[i - 1].spec_label()));
        assert(v@.take(i as int).map_values(|s: ProposalStatus| s.spec_label()) =~= prev.push(
            v@[i - 1].spec_label(),
        ));
    }
    assert(v@.take(i as int) =~= v@);
    crate::text::join_strings(&names, ", ")
}

fn join_labels_format(v: &Vec<ProposalFormat>) -> (r: Vec<char>)
    ensures
        r@ == join(v@.map_values(|x: ProposalFormat| x.spec_label()), ", "@),
{
    let mut names: Vec<String> = Vec::new();
    let mut i: usize = 0;
    while i < v.len()
        invariant
            i <= v@.len(),
            names@.map_values(|s: String| s@) == v@.take(i as int).map_values(
                |x: ProposalFormat| x.spec_label(),
            ),
        decreases v@.len() - i,
    {
        let ghost prev = names@.map_values(|s: String| s@);
        names.push(v[i].to_string());
        i = i + 1;
        assert(names@.map_values(|s: String| s@) =~= prev.push(v@[i - 1].spec_label()));
        assert(v@.take(i as int).map_values(|x: ProposalFormat| x.spec_label()) =~= prev.push(
            v@[i - 1].spec_label(),
        ));
    }
    assert(v@.take(i as int) =~= v@);
    crate::text::join_strings(&names, ", ")
}

/// The one-line summary of the filters.
pub fn filter_summary(filters: &Filters) -> (r: String)
    ensures
        r@ == summary_text(*filters),
{
    let mut out = chars_of("status: ");
    if filters.statuses.len() == 0 {
        push_str(&mut out, "all statuses");
    } else {
        let j = join_labels_status(&filters.statuses);
        push_chars(&mut out, &j);
    }
    push_str(&mut out, " | format: ");
    if filters.formats.len() == 0 {
        push_str(&mut out, "all formats");
    } else {
        let j = join_labels_format(&filters.formats);
        push_chars(&mut out, &j);
    }
    push_str(&mut out, " | sort: ");
    push_str(&mut out, filters.sort_by.debug_name());
    match filters.sort_order {
        SortOrder::Asc => push_str(&mut out, "↑"),
        SortOrder::Desc => push_str(&mut out, "↓"),
    }
    assert(out@ =~= summary_text(*filters));
    string_of(&out)
}

// ── Filtering and order ─────────────────────────────────────────────────────
/// The status filter lets the proposal through.
pub open spec fn status_ok(p: Proposal, f: Filters) -> bool {
    f.statuses@.len() == 0 || f.statuses@.contains(p.status)
}

/// The format filter lets the proposal through (one without a format only
/// when no format is chosen).
pub open spec fn format_ok(p: Proposal, f: Filters) -> bool {
    f.formats@.len() == 0 || (p.format matches Some(x) && f.formats@.contains(x))
}

/// The search matches the title or a speaker's name, ignoring case.
pub open spec fn search_ok(p: Proposal, f: Filters) -> bool {
    match f.search {
        None => true,
        Some(s) => contains_seq(lower_of(p.title@), lower_of(s@)) || exists|i: int|
            0 <= i < p.speakers@.len() && contains_seq(
                lower_of(#[trigger] p.speakers@[i].name@),
                lower_of(s@),
            ),
    }
}

/// The filters let the proposal through.
pub open spec fn keeps(p: Proposal, f: Filters) -> bool {
    status_ok(p, f) && format_ok(p, f) && search_ok(p, f)
}

/// The proposals the filters let through, in their order.
pub open spec fn kept(ps: Seq<Proposal>, f: Filters) -> Seq<Proposal>
    decreases ps.len(),
{
    if ps.len() == 0 {
        seq![]
    } else {
        let rest = kept(ps.drop_last(), f);
        if keeps(ps.last(), f) {
            rest.push(ps.last())
        } else {
            rest
        }
    }
}

/// `x` clamped to the range of `i64`.
pub open spec fn clamp_i64(x: int) -> int {
    if x > i64::MAX {
        i64::MAX as int
    } else if x < i64::MIN {
        i64::MIN as int
    } else {
        x
    }
}

/// The sum of the scored reviews' totals, in thousandths, each partial sum
/// clamped to `i64`.
pub open spec fn rating_sum(rs: Seq<Review>) -> int
    decreases rs.len(),
{
    if rs.len() == 0 {
        0
    } else {
        let t = match rs.last().score {
            Some(s) => s.spec_total(),
            None => 0,
        };
        clamp_i64(rating_sum(rs.drop_last()) + t)
    }
}

/// The first speaker's name, empty when there is none.
pub open spec fn first_speaker_name(p: Proposal) -> Seq<char> {
    if p.speakers@.len() > 0 {
        p.speakers@[0].name@
    } else {
        seq![]
    }
}

/// What a proposal is sorted by: the creation time, the title, the first
/// speaker, the mean review total (over all reviews, at least one), or the
/// status label.
pub open spec fn sort_key(p: Proposal, by: ProposalSortBy) -> KeyView {
    match by {
        ProposalSortBy::Created => KeyView::OptText(
            match p.created_at {
                Some(c) => Some(c@),
                None => None,
            },
        ),
        ProposalSortBy::Title => KeyView::Text(p.title@),
        ProposalSortBy::Speaker => KeyView::Text(first_speaker_name(p)),
        ProposalSortBy::Rating => KeyView::Ratio(
            rating_sum(p.reviews@),
            if p.reviews@.len() == 0 {
                1
            } else {
                p.reviews@.len() as int
            },
        ),
        ProposalSortBy::Status => KeyView::Text(p.status.spec_label()),
    }
}

/// `n`, or one when `n` is not positive: how many reviews a mean divides by.
pub open spec fn at_least_one(n: int) -> int {
    if n > 0 {
        n
    } else {
        1
    }
}

/// By rating, two proposals compare by their mean review total: the sum of
/// their scored reviews' totals over the number of their reviews (at least
/// one), whatever the number of reviews on either side.
pub proof fn lemma_rating_key_compares_means(p: Proposal, q: Proposal)
    ensures
        crate::sort::key_order(
            sort_key(p, ProposalSortBy::Rating),
            sort_key(q, ProposalSortBy::Rating),
        ) == crate::sort::sign(
            rating_sum(p.reviews@) * at_least_one(q.reviews@.len() as int) - rating_sum(q.reviews@)
                * at_least_one(p.reviews@.len() as int),
        ),
{
}

/// Sorted by rating, the proposals come in order of their mean review total
/// (compared without division: each sum times the other's review count):
/// highest first when descending, lowest first when ascending.
pub proof fn lemma_rating_sort_is_by_mean(ps: Seq<Proposal>, f: Filters, perm: Seq<usize>)
    requires
        f.sort_by == ProposalSortBy::Rating,
        is_stable_sorted(kept_keys(ps, f), perm, is_descending(f.sort_order)),
    ensures
        forall|i: int, j: int|
            #![trigger perm[i], perm[j]]
            0 <= i < j < perm.len() ==> {
                let a = kept(ps, f)[perm[i] as int];
                let b = kept(ps, f)[perm[j] as int];
                let ma = rating_sum(a.reviews@) * at_least_one(b.reviews@.len() as int);
                let mb = rating_sum(b.reviews@) * at_least_one(a.reviews@.len() as int);
                &&& f.sort_order == SortOrder::Desc ==> ma >= mb
                &&& f.sort_order == SortOrder::Asc ==> ma <= mb
            },
{
    let ks = kept(ps, f);
    let keys = kept_keys(ps, f);
    assert forall|i: int, j: int|
        #![trigger perm[i], perm[j]]
        0 <= i < j < perm.len() implies {
            let a = ks[perm[i] as int];
            let b = ks[perm[j] as int];
            let ma = rating_sum(a.reviews@) * at_least_one(b.reviews@.len() as int);
            let mb = rating_sum(b.reviews@) * at_least_one(a.reviews@.len() as int);
            &&& f.sort_order == SortOrder::Desc ==> ma >= mb
            &&& f.sort_order == SortOrder::Asc ==> ma <= mb
        } by {
        let x = perm[i] as int;
        let y = perm[j] as int;
        assert(x < keys.len() && y < keys.len());
        assert(keys[x] == sort_key(ks[x], ProposalSortBy::Rating));
        assert(keys[y] == sort_key(ks[y], ProposalSortBy::Rating));
        lemma_rating_key_compares_means(ks[x], ks[y]);
        assert(crate::sort::dir_order(keys[x], keys[y], is_descending(f.sort_order)) <= 0);
    }
}

/// Whether the order is descending.
pub open spec fn is_descending(o: SortOrder) -> bool {
    o == SortOrder::Desc
}

/// The keys of the kept proposals.
pub open spec fn kept_keys(ps: Seq<Proposal>, f: Filters) -> Seq<KeyView> {
    kept(ps, f).map_values(|p: Proposal| sort_key(p, f.sort_by))
}

fn status_chosen(v: &Vec<ProposalStatus>, s: ProposalStatus) -> (r: bool)
    ensures
        r == v@.contains(s),
{
    let mut i: usize = 0;
    while i < v.len()
        invariant
            i <= v@.len(),
            forall|j: int| 0 <= j < i ==> v@[j] != s,
        decreases v@.len() - i,
    {
        if v[i] == s {
            assert(v@[i as int] == s);
            return true;
        }
        i = i + 1;
    }
    false
}

fn format_chosen(v: &Vec<ProposalFormat>, x: ProposalFormat) -> (r: bool)
    ensures
        r == v@.contains(x),
{
    let mut i: usize = 0;
    while i < v.len()
        invariant
            i <= v@.len(),
            forall|j: int| 0 <= j < i ==> v@[j] != x,
        decreases v@.len() - i,
    {
        if v[i] == x {
            assert(v@[i as int] == x);
            return true;
        }
        i = i + 1;
    }
    false
}

fn search_matches(p: &Proposal, search: &str) -> (r: bool)
    ensures
        r == (contains_seq(lower_of(p.title@), lower_of(search@)) || exists|i: int|
            0 <= i < p.speakers@.len() && contains_seq(
                lower_of(#[trigger] p.speakers@[i].name@),
                lower_of(search@),
            )),
{
    let needle = chars_of(to_lower(search).as_str());
    let title = chars_of(to_lower(p.title.as_str()).as_str());
    if contains_exec(&title, &needle) {
        return true;
    }
    let mut i: usize = 0;
    while i < p.speakers.len()
        invariant
            i <= p.speakers@.len(),
            needle@ == lower_of(search@),
            forall|j: int|
                0 <= j < i ==> !contains_seq(lower_of(#[trigger] p.speakers@[j].name@), needle@),
        decreases p.speakers@.len() - i,
    {
        let name = chars_of(to_lower(p.speakers[i].name.as_str()).as_str());
        if contains_exec(&name, &needle) {
            return true;
        }
        i = i + 1;
    }
    false
}

/// Whether the filters let a proposal through.
pub fn keeps_proposal(p: &Proposal, f: &Filters) -> (r: bool)
    ensures
        r == keeps(*p, *f),
{
    if f.statuses.len() > 0 && !status_chosen(&f.statuses, p.status) {
        return false;
    }
    if f.formats.len() > 0 {
        match p.format {
            Some(x) => {
                if !format_chosen(&f.formats, x) {
                    return false;
                }
            },
            None => {
                return false;
            },
        }
    }
    match &f.search {
        Some(s) => search_matches(p, s.as_str()),
        None => true,
    }
}

fn rating_of(rs: &Vec<Review>) -> (r: i64)
    ensures
        r == rating_sum(rs@),
{
    let mut acc: i64 = 0;
    let mut i: usize = 0;
    assert(rs@.take(0) =~= Seq::<Review>::empty());
    while i < rs.len()
        invariant
            i <= rs@.len(),
            acc == rating_sum(rs@.take(i as int)),
        decreases rs@.len() - i,
    {
        let t: i128 = match &rs[i].score {
            Some(s) => s.total(),
            None => 0,
        };
        let next: i128 = acc as i128 + t;
        acc = if next > i64::MAX as i128 {
            i64::MAX
        } else if next < i64::MIN as i128 {
            i64::MIN
        } else {
            next as i64
        };
        i = i + 1;
        assert(rs@.take(i as int).drop_last() =~= rs@.take(i - 1));
    }
    assert(rs@.take(i as int) =~= rs@);
    acc
}

/// The key a proposal is sorted by.
pub fn sort_key_of(p: &Proposal, by: ProposalSortBy) -> (k: SortKey)
    ensures
        k@ == sort_key(*p, by),
{
    match by {
        ProposalSortBy::Created => SortKey::OptText(
            match &p.created_at {
                Some(c) => Some(chars_of(c.as_str())),
                None => None,
            },
        ),
        ProposalSortBy::Title => SortKey::Text(chars_of(p.title.as_str())),
        ProposalSortBy::Speaker => {
            if p.speakers.len() > 0 {
                SortKey::Text(chars_of(p.speakers[0].name.as_str()))
            } else {
                SortKey::Text(Vec::new())
            }
        },
        ProposalSortBy::Rating => {
            let num = rating_of(&p.reviews);
            let den: u64 = if p.reviews.len() == 0 {
                1
            } else {
                p.reviews.len() as u64
            };
            SortKey::Ratio { num, den }
        },
        ProposalSortBy::Status => SortKey::Text(chars_of(p.status.label())),
    }
}

/// The proposals the filters let through, stably sorted by the chosen field
/// in the chosen direction.
pub fn apply_filters<'a>(proposals: &'a [Proposal], filters: &Filters) -> (out: Vec<&'a Proposal>)
    ensures
        exists|perm: Seq<usize>|
            is_stable_sorted(
                kept_keys(proposals@, *filters),
                perm,
                is_descending(filters.sort_order),
            ) && out@.len() == perm.len() && (forall|k: int|
                0 <= k < perm.len() ==> *out@[k] == kept(proposals@, *filters)[#[trigger] perm[k] as int]),
{
    let mut sel: Vec<&'a Proposal> = Vec::new();
    let mut keys: Vec<SortKey> = Vec::new();
    let mut i: usize = 0;
    assert(proposals@.take(0) =~= Seq::<Proposal>::empty());
    while i < proposals.len()
        invariant
            i <= proposals@.len(),
            sel@.len() == keys@.len(),
            sel@.len() == kept(proposals@.take(i as int), *filters).len(),
            forall|j: int|
                0 <= j < sel@.len() ==> *sel@[j] == kept(proposals@.take(i as int), *filters)[j],
            forall|j: int|
                0 <= j < keys@.len() ==> (#[trigger] keys@[j])@ == sort_key(*sel@[j], filters.sort_by),
        decreases proposals@.len() - i,
    {
        let p = &proposals[i];
        assert(proposals@.take(i + 1).drop_last() =~= proposals@.take(i as int));
        if keeps_proposal(p, filters) {
            sel.push(p);
            keys.push(sort_key_of(p, filters.sort_by));
        }
        i = i + 1;
    }
    assert(proposals@.take(i as int) =~= proposals@);
    let ghost kp = kept(proposals@, *filters);
    assert(key_views(keys@) =~= kept_keys(proposals@, *filters));
    let desc = match filters.sort_order {
        SortOrder::Desc => true,
        SortOrder::Asc => false,
    };
    let perm = stable_sort_indices(&keys, desc);
    assert(is_stable_sorted(kept_keys(proposals@, *filters), perm@, is_descending(filters.sort_order)));
    let out = apply_permutation(sel, &perm);
    assert(forall|k: int| 0 <= k < perm@.len() ==> *out@[k] == kp[#[trigger] perm@[k] as int]);
    out
}

// ── Rows ────────────────────────────────────────────────────────────────────
/// `a - b`, or zero.
pub open spec fn sat_sub(a: int, b: int) -> int {
    if a > b {
        a - b
    } else {
        0
    }
}

/// The room left for title and speakers in a row of the given width.
pub open spec fn row_room(width: int) -> int {
    sat_sub(width, 34)
}

/// The share of the room the title gets.
pub open spec fn title_budget(width: int) -> int {
    row_room(width) * 2 / 3
}

/// The share of the room the speakers get.
pub open spec fn speaker_budget(width: int) -> int {
    sat_sub(row_room(width), title_budget(width) + 3)
}

/// The speakers' names, joined by commas.
pub open spec fn speaker_names(p: Proposal) -> Seq<char> {
    join(p.speakers@.map_values(|s: crate::types::Speaker| s.name@), ", "@)
}

/// The format a row shows.
pub open spec fn row_format(p: Proposal) -> Seq<char> {
    match p.format {
        Some(f) => f.spec_label(),
        None => "-"@,
    }
}

/// A proposal as one row: its status in colour, then format, title and
/// speakers, cut to the terminal's width.
pub open spec fn item_parts(p: Proposal, width: int) -> Seq<Part> {
    seq![
        (pad_right(p.status.spec_label(), 12), Some(status_paint(p.status))),
        (item_rest(p, width), None),
    ]
}

/// The unpainted part of a row: format, title, and speakers when there are
/// any.
pub open spec fn item_rest(p: Proposal, width: int) -> Seq<char> {
    let names = speaker_names(p);
    let head = " "@ + pad_right(row_format(p), 16) + " "@ + truncated(
        p.title@,
        title_budget(width) as nat,
    );
    if names.len() == 0 {
        head
    } else {
        head + " · "@ + truncated(names, speaker_budget(width) as nat)
    }
}

/// A proposal's row names every one of its speakers, in order, separated by
/// ", ": each name occurs in the speaker text, so does each name followed by
/// ", " and the next speaker's name, and when the names fit the speakers'
/// share of the row each name occurs in the row itself.
pub proof fn lemma_row_names_every_speaker(p: Proposal, width: int)
    ensures
        forall|i: int|
            0 <= i < p.speakers@.len() ==> contains_seq(
                speaker_names(p),
                #[trigger] p.speakers@[i].name@,
            ),
        forall|i: int|
            0 <= i < p.speakers@.len() - 1 ==> contains_seq(
                speaker_names(p),
                #[trigger] p.speakers@[i].name@ + ", "@ + p.speakers@[i + 1].name@,
            ),
        speaker_names(p).len() <= speaker_budget(width) ==> forall|i: int|
            0 <= i < p.speakers@.len() ==> contains_seq(
                item_parts(p, width)[1].0,
                #[trigger] p.speakers@[i].name@,
            ),
{
    let names = p.speakers@.map_values(|s: crate::types::Speaker| s.name@);
    assert forall|i: int| 0 <= i < p.speakers@.len() implies contains_seq(
        speaker_names(p),
        #[trigger] p.speakers@[i].name@,
    ) && (i < p.speakers@.len() - 1 ==> contains_seq(
        speaker_names(p),
        p.speakers@[i].name@ + ", "@ + p.speakers@[i + 1].name@,
    )) by {
        crate::text::lemma_join_contains(names, ", "@, i);
        assert(names[i] == p.speakers@[i].name@);
        if i < p.speakers@.len() - 1 {
            assert(names[i + 1] == p.speakers@[i + 1].name@);
        }
    }
    if speaker_names(p).len() <= speaker_budget(width) {
        let sn = speaker_names(p);
        let rest = item_parts(p, width)[1].0;
        assert forall|i: int| 0 <= i < p.speakers@.len() implies contains_seq(
            rest,
            #[trigger] p.speakers@[i].name@,
        ) by {
            let nm = p.speakers@[i].name@;
            assert(contains_seq(sn, nm));
            let w = choose|w: int| occurs_at(sn, nm, w);
            if sn.len() == 0 {
                assert(nm.len() == 0);
                assert(rest.subrange(0, 0) =~= nm);
                assert(occurs_at(rest, nm, 0));
            } else {
                assert(truncated(sn, speaker_budget(width) as nat) == sn);
                let head = rest.len() - sn.len();
                assert(rest.subrange(head, rest.len() as int) =~= sn);
                assert(rest.subrange(head + w, head + w + nm.len()) =~= sn.subrange(w, w + nm.len()));
                assert(occurs_at(rest, nm, head + w));
            }
        }
    }
}

fn speaker_names_exec(p: &Proposal) -> (r: Vec<char>)
    ensures
        r@ == speaker_names(*p),
{
    let mut names: Vec<String> = Vec::new();
    let mut i: usize = 0;
    while i < p.speakers.len()
        invariant
            i <= p.speakers@.len(),
            names@.map_values(|s: String| s@) == p.speakers@.take(i as int).map_values(
                |s: crate::types::Speaker| s.name@,
            ),
        decreases p.speakers@.len() - i,
    {
        let ghost prev = names@.map_values(|s: String| s@);
        names.push(string_of(&chars_of(p.speakers[i].name.as_str())));
        i = i + 1;
        assert(names@.map_values(|s: String| s@) =~= prev.push(p.speakers@[i - 1].name@));
        assert(p.speakers@.take(i as int).map_values(|s: crate::types::Speaker| s.name@)
            =~= prev.push(p.speakers@[i - 1].name@));
    }
    assert(p.speakers@.take(i as int) =~= p.speakers@);
    crate::text::join_strings(&names, ", ")
}

/// The spans of a proposal's row.
pub fn item_spans(p: &Proposal, term_width: u16) -> (out: Vec<Span>)
    ensures
        parts_of(out@) == item_parts(*p, term_width as int),
{
    let mut status: Vec<char> = Vec::new();
    push_padded(&mut status, &chars_of(p.status.label()), 12);
    assert(status@ =~= pad_right(p.status.spec_label(), 12));
    let w = term_width as usize;
    let room: usize = if w > 34 {
        w - 34
    } else {
        0
    };
    let tb: usize = room * 2 / 3;
    let sb: usize = if room > tb + 3 {
        room - (tb + 3)
    } else {
        0
    };
    let format: &str = match p.format {
        Some(f) => f.label(),
        None => "-",
    };
    let mut rest = chars_of(" ");
    push_padded(&mut rest, &chars_of(format), 16);
    push_str(&mut rest, " ");
    let t = truncate(p.title.as_str(), tb);
    push_str(&mut rest, t.as_str());
    let names = speaker_names_exec(p);
    if names.len() > 0 {
        push_str(&mut rest, " · ");
        let ns = string_of(&names);
        let tn = truncate(ns.as_str(), sb);
        push_str(&mut rest, tn.as_str());
    }
    assert(rest@ =~= item_rest(*p, term_width as int));
    let mut out: Vec<Span> = Vec::new();
    assert(parts_of(out@) =~= Seq::<Part>::empty());
    push_span(&mut out, status, Some(status_paint_of(p.status)));
    push_span(&mut out, rest, None);
    assert(parts_of(out@) =~= item_parts(*p, term_width as int));
    out
}

/// A proposal as one row of the list, for a terminal `term_width` wide.
pub fn format_item(p: &Proposal, term_width: u16) -> (r: String)
    ensures
        printed(item_parts(*p, term_width as int), r@),
{
    let spans = item_spans(p, term_width);
    render(&spans)
}

// ── The interactive list ────────────────────────────────────────────────────
/// The statuses the filter menu offers, in order.
pub open spec fn menu_statuses() -> Seq<ProposalStatus> {
    seq![
        ProposalStatus::Submitted,
        ProposalStatus::Accepted,
        ProposalStatus::Confirmed,
        ProposalStatus::Waitlisted,
        ProposalStatus::Rejected,
        ProposalStatus::Withdrawn,
    ]
}

/// The formats the filter menu offers, in order.
pub open spec fn menu_formats() -> Seq<ProposalFormat> {
    seq![
        ProposalFormat::Lightning10,
        ProposalFormat::Presentation20,
        ProposalFormat::Presentation25,
        ProposalFormat::Presentation40,
        ProposalFormat::Presentation45,
        ProposalFormat::Workshop120,
        ProposalFormat::Workshop240,
    ]
}

/// The sort fields the filter menu offers, in order.
pub open spec fn menu_sort_fields() -> Seq<ProposalSortBy> {
    seq![
        ProposalSortBy::Created,
        ProposalSortBy::Title,
        ProposalSortBy::Speaker,
        ProposalSortBy::Rating,
        ProposalSortBy::Status,
    ]
}

/// The statuses the filter menu offers.
pub fn status_options() -> (v: Vec<ProposalStatus>)
    ensures
        v@ == menu_statuses(),
{
    let v = vec![
        ProposalStatus::Submitted,
        ProposalStatus::Accepted,
        ProposalStatus::Confirmed,
        ProposalStatus::Waitlisted,
        ProposalStatus::Rejected,
        ProposalStatus::Withdrawn,
    ];
    assert(v@ =~= menu_statuses());
    v
}

/// The formats the filter menu offers.
pub fn format_options() -> (v: Vec<ProposalFormat>)
    ensures
        v@ == menu_formats(),
{
    let v = vec![
        ProposalFormat::Lightning10,
        ProposalFormat::Presentation20,
        ProposalFormat::Presentation25,
        ProposalFormat::Presentation40,
        ProposalFormat::Presentation45,
        ProposalFormat::Workshop120,
        ProposalFormat::Workshop240,
    ];
    assert(v@ =~= menu_formats());
    v
}

/// The sort fields the filter menu offers.
pub fn sort_field_options() -> (v: Vec<ProposalSortBy>)
    ensures
        v@ == menu_sort_fields(),
{
    let v = vec![
        ProposalSortBy::Created,
        ProposalSortBy::Title,
        ProposalSortBy::Speaker,
        ProposalSortBy::Rating,
        ProposalSortBy::Status,
    ];
    assert(v@ =~= menu_sort_fields());
    v
}

/// Which statuses the menu starts ticked: those already chosen.
pub fn status_defaults(f: &Filters) -> (v: Vec<bool>)
    ensures
        v@.len() == menu_statuses().len(),
        forall|i: int| 0 <= i < v@.len() ==> v@[i] == f.statuses@.contains(menu_statuses()[i]),
{
    let opts = status_options();
    let mut v: Vec<bool> = Vec::new();
    let mut i: usize = 0;
    while i < opts.len()
        invariant
            opts@ == menu_statuses(),
            i <= opts@.len(),
            v@.len() == i,
            forall|j: int| 0 <= j < i ==> v@[j] == f.statuses@.contains(menu_statuses()[j]),
        decreases opts@.len() - i,
    {
        v.push(status_chosen(&f.statuses, opts[i]));
        i = i + 1;
    }
    v
}

/// Which formats the menu starts ticked: all when none is chosen, else those
/// chosen.
pub fn format_defaults(f: &Filters) -> (v: Vec<bool>)
    ensures
        v@.len() == menu_formats().len(),
        forall|i: int|
            0 <= i < v@.len() ==> v@[i] == (f.formats@.len() == 0 || f.formats@.contains(
                menu_formats()[i],
            )),
{
    let opts = format_options();
    let mut v: Vec<bool> = Vec::new();
    let mut i: usize = 0;
    while i < opts.len()
        invariant
            opts@ == menu_formats(),
            i <= opts@.len(),
            v@.len() == i,
            forall|j: int|
                0 <= j < i ==> v@[j] == (f.formats@.len() == 0 || f.formats@.contains(
                    menu_formats()[j],
                )),
        decreases opts@.len() - i,
    {
        let b = f.formats.len() == 0 || format_chosen(&f.formats, opts[i]);
        v.push(b);
        i = i + 1;
    }
    v
}

/// The statuses ticked in the menu.
pub fn statuses_from_selection(selected: &[usize]) -> (v: Vec<ProposalStatus>)
    requires
        forall|i: int| 0 <= i < selected@.len() ==> selected@[i] < 6,
    ensures
        v@ == selected@.map_values(|k: usize| menu_statuses()[k as int]),
{
    let opts = status_options();
    let mut v: Vec<ProposalStatus> = Vec::new();
    let mut i: usize = 0;
    while i < selected.len()
        invariant
            opts@ == menu_statuses(),
            forall|j: int| 0 <= j < selected@.len() ==> selected@[j] < 6,
            i <= selected@.len(),
            v@ == selected@.take(i as int).map_values(|k: usize| menu_statuses()[k as int]),
        decreases selected@.len() - i,
    {
        v.push(opts[selected[i]]);
        i = i + 1;
        assert(selected@.take(i as int).map_values(|k: usize| menu_statuses()[k as int])
            =~= selected@.take(i - 1).map_values(|k: usize| menu_statuses()[k as int]).push(
            menu_statuses()[selected@[i - 1] as int],
        ));
    }
    assert(selected@.take(i as int) =~= selected@);
    v
}

/// The formats ticked in the menu: none (that is, all) when every format is
/// ticked.
pub fn formats_from_selection(selected: &[usize]) -> (v: Vec<ProposalFormat>)
    requires
        forall|i: int| 0 <= i < selected@.len() ==> selected@[i] < 7,
    ensures
        selected@.len() == 7 ==> v@.len() == 0,
        selected@.len() != 7 ==> v@ == selected@.map_values(|k: usize| menu_formats()[k as int]),
{
    if selected.len() == 7 {
        return Vec::new();
    }
    let opts = format_options();
    let mut v: Vec<ProposalFormat> = Vec::new();
    let mut i: usize = 0;
    while i < selected.len()
        invariant
            opts@ == menu_formats(),
            forall|j: int| 0 <= j < selected@.len() ==> selected@[j] < 7,
            i <= selected@.len(),
            v@ == selected@.take(i as int).map_values(|k: usize| menu_formats()[k as int]),
        decreases selected@.len() - i,
    {
        v.push(opts[selected[i]]);
        i = i + 1;
        assert(selected@.take(i as int).map_values(|k: usize| menu_formats()[k as int])
            =~= selected@.take(i - 1).map_values(|k: usize| menu_formats()[k as int]).push(
            menu_formats()[selected@[i - 1] as int],
        ));
    }
    assert(selected@.take(i as int) =~= selected@);
    v
}

/// Where the sort menu starts: the current field.
pub fn sort_default(by: ProposalSortBy) -> (i: usize)
    ensures
        i < 5,
        menu_sort_fields()[i as int] == by,
{
    match by {
        ProposalSortBy::Created => 0,
        ProposalSortBy::Title => 1,
        ProposalSortBy::Speaker => 2,
        ProposalSortBy::Rating => 3,
        ProposalSortBy::Status => 4,
    }
}

/// Where the direction menu starts: descending first, then ascending.
pub fn order_default(o: SortOrder) -> (i: usize)
    ensures
        i == (if o == SortOrder::Desc {
            0usize
        } else {
            1usize
        }),
{
    match o {
        SortOrder::Desc => 0,
        SortOrder::Asc => 1,
    }
}

/// The direction picked in the menu.
pub fn order_from_choice(i: usize) -> (o: SortOrder)
    ensures
        o == (if i == 0 {
            SortOrder::Desc
        } else {
            SortOrder::Asc
        }),
{
    if i == 0 {
        SortOrder::Desc
    } else {
        SortOrder::Asc
    }
}

/// Which row the list starts on: the one after the cursor (the menu entry
/// comes first), within the items.
pub fn list_default(cursor: usize, n_items: usize) -> (i: usize)
    requires
        n_items > 0,
    ensures
        i == (if cursor + 1 <= n_items - 1 {
            cursor + 1
        } else {
            n_items - 1
        }),
{
    if cursor >= n_items - 1 {
        n_items - 1
    } else {
        cursor + 1
    }
}

/// What a choice in the list leads to.
#[derive(Debug, Clone, Copy, PartialEq, Eq, Structural)]
pub enum ListStep {
    /// The filter menu (the cursor goes back to the top).
    FilterMenu,
    /// The detail view of the proposal at this position.
    Detail(usize),
    /// Leaving the list.
    Quit,
}

/// What a choice in the list leads to: the first entry opens the filter
/// menu, the others a proposal, escape leaves.
pub fn list_step(selection: Option<usize>) -> (s: ListStep)
    ensures
        s == (match selection {
            Some(0) => ListStep::FilterMenu,
            Some(i) => ListStep::Detail((i - 1) as usize),
            None => ListStep::Quit,
        }),
{
    match selection {
        Some(0) => ListStep::FilterMenu,
        Some(i) => ListStep::Detail(i - 1),
        None => ListStep::Quit,
    }
}

/// The first entry of the list: the filter menu, with the summary.
pub fn menu_label(filters: &Filters) -> (r: String)
    ensures
        r@ == "⚙ Filter & Sort  ("@ + summary_text(*filters) + ")"@,
{
    let mut b = chars_of("⚙ Filter & Sort  (");
    let s = filter_summary(filters);
    push_str(&mut b, s.as_str());
    push_str(&mut b, ")");
    string_of(&b)
}

// ── Reviews ─────────────────────────────────────────────────────────────────
/// The user's own review: one signed with that name, ignoring
/// ASCII case.
pub open spec fn is_own_review(r: Review, name: Seq<char>) -> bool {
    r.reviewer matches Some(v) && eq_ascii_nocase(v.name@, name)
}

/// The first review signed with `name`, if any.
pub fn find_own_review(reviews: &[Review], name: Option<&str>) -> (r: Option<usize>)
    ensures
        match r {
            Some(i) => name is Some && i < reviews@.len() && is_own_review(
                reviews@[i as int],
                name->0@,
            ) && forall|j: int| 0 <= j < i ==> !is_own_review(#[trigger] reviews@[j], name->0@),
            None => name is None || forall|j: int|
                0 <= j < reviews@.len() ==> !is_own_review(#[trigger] reviews@[j], name->0@),
        },
{
    let n = match name {
        Some(n) => n,
        None => {
            return None;
        },
    };
    let mut i: usize = 0;
    while i < reviews.len()
        invariant
            name == Some(n),
            i <= reviews@.len(),
            forall|j: int| 0 <= j < i ==> !is_own_review(#[trigger] reviews@[j], n@),
        decreases reviews@.len() - i,
    {
        let own = match &reviews[i].reviewer {
            Some(v) => eq_ignore_ascii_case(v.name.as_str(), n),
            None => false,
        };
        if own {
            return Some(i);
        }
        i = i + 1;
    }
    None
}

/// One of the three scores of a review.
#[derive(Debug, Clone, Copy, PartialEq, Eq, Structural)]
pub enum ScoreField {
    Content,
    Relevance,
    Speaker,
}

/// The whole part of one score of a review.
pub open spec fn score_whole(s: ReviewScore, field: ScoreField) -> int {
    match field {
        ScoreField::Content => s.content.whole as int,
        ScoreField::Relevance => s.relevance.whole as int,
        ScoreField::Speaker => s.speaker.whole as int,
    }
}

/// Where a score prompt starts: "3" for a new review, else the previous
/// score (as a position among 1 to 5, within range).
pub fn score_default(prev: Option<&ReviewScore>, field: ScoreField) -> (i: usize)
    ensures
        i == (match prev {
            None => 2,
            Some(s) => {
                let w = score_whole(*s, field);
                let d = if w > 1 {
                    w - 1
                } else {
                    0
                };
                if d > 4 {
                    4
                } else {
                    d
                }
            },
        }),
{
    match prev {
        None => 2,
        Some(s) => {
            let w: u64 = match field {
                ScoreField::Content => s.content.whole,
                ScoreField::Relevance => s.relevance.whole,
                ScoreField::Speaker => s.speaker.whole,
            };
            let d: u64 = if w > 1 {
                w - 1
            } else {
                0
            };
            if d > 4 {
                4
            } else {
                d as usize
            }
        },
    }
}

/// The comment a review prompt starts with: the previous comment when it is
/// text, else nothing.
pub fn previous_comment(existing: Option<&Review>) -> (r: String)
    ensures
        r@ == (match existing {
            Some(rv) => match rv.comment {
                ReviewComment::Text(c) => c@,
                _ => seq![],
            },
            None => seq![],
        }),
{
    match existing {
        Some(rv) => match &rv.comment {
            ReviewComment::Text(c) => string_of(&chars_of(c.as_str())),
            _ => String::new(),
        },
        None => String::new(),
    }
}

/// The score a choice among the five labels gives.
pub fn score_of_choice(i: usize) -> (s: u8)
    requires
        i < 5,
    ensures
        s == i + 1,
{
    (i + 1) as u8
}

/// The summary shown before a review is sent.
pub fn review_summary(content: u8, relevance: u8, speaker: u8) -> (r: String)
    ensures
        r@ == "\n  Content: "@ + decimal(content as nat) + "  Relevance: "@ + decimal(
            relevance as nat,
        ) + "  Speaker: "@ + decimal(speaker as nat) + "  Total: "@ + decimal(
            (content + relevance + speaker) as nat,
        ) + "/15"@,
{
    let mut b = chars_of("\n  Content: ");
    push_chars(&mut b, &decimal_exec(content as u64));
    push_str(&mut b, "  Relevance: ");
    push_chars(&mut b, &decimal_exec(relevance as u64));
    push_str(&mut b, "  Speaker: ");
    push_chars(&mut b, &decimal_exec(speaker as u64));
    push_str(&mut b, "  Total: ");
    let total: u64 = content as u64 + relevance as u64 + speaker as u64;
    push_chars(&mut b, &decimal_exec(total));
    push_str(&mut b, "/15");
    string_of(&b)
}

// ── Adding a speaker ────────────────────────────────────────────────────────
/// How a speaker is named when added to a proposal.
#[derive(Debug, Clone, PartialEq)]
pub enum SpeakerLookup {
    /// By e-mail: the speaker is searched for.
    Email(String),
    /// By id.
    Id(String),
}

/// A query with `@` is an e-mail address; anything else an id.
pub fn speaker_lookup(query: &str) -> (r: SpeakerLookup)
    ensures
        query@.contains('@') ==> (r matches SpeakerLookup::Email(e) && e@ == query@),
        !query@.contains('@') ==> (r matches SpeakerLookup::Id(e) && e@ == query@),
{
    let cs = chars_of(query);
    let mut i: usize = 0;
    while i < cs.len()
        invariant
            cs@ == query@,
            i <= cs@.len(),
            forall|j: int| 0 <= j < i ==> cs@[j] != '@',
        decreases cs@.len() - i,
    {
        if cs[i] == '@' {
            assert(query@[i as int] == '@');
            return SpeakerLookup::Email(string_of(&cs));
        }
        i = i + 1;
    }
    SpeakerLookup::Id(string_of(&cs))
}

/// The speaker ids with one more added: `None` when it is already there.
pub fn with_speaker(ids: Vec<String>, id: String) -> (r: Option<Vec<String>>)
    ensures
        ids@.map_values(|s: String| s@).contains(id@) ==> r is None,
        !ids@.map_values(|s: String| s@).contains(id@) ==> (r matches Some(v) && v@.map_values(
            |s: String| s@,
        ) == ids@.map_values(|s: String| s@).push(id@)),
{
    let ghost views = ids@.map_values(|s: String| s@);
    let mut i: usize = 0;
    while i < ids.len()
        invariant
            views == ids@.map_values(|s: String| s@),
            i <= ids@.len(),
            forall|j: int| 0 <= j < i ==> views[j] != id@,
        decreases ids@.len() - i,
    {
        if str_eq(ids[i].as_str(), id.as_str()) {
            assert(views[i as int] == id@);
            return None;
        }
        i = i + 1;
    }
    let mut out = ids;
    out.push(id);
    assert(out@.map_values(|s: String| s@) =~= views.push(id@));
    Some(out)
}

/// How the proposal wizard lists a speaker to choose: the name, then the
/// e-mail address (or "no email") in angle brackets.
pub open spec fn speaker_label_text(s: SpeakerSummary) -> Seq<char> {
    s.name@ + " <"@ + match s.email {
        Some(e) => e@,
        None => "no email"@,
    } + ">"@
}

/// A speaker as the proposal wizard lists it.
pub fn speaker_label(s: &SpeakerSummary) -> (r: String)
    ensures
        r@ == speaker_label_text(*s),
{
    let mut b = chars_of(s.name.as_str());
    push_str(&mut b, " <");
    match &s.email {
        Some(e) => push_str(&mut b, e.as_str()),
        None => push_str(&mut b, "no email"),
    }
    push_str(&mut b, ">");
    string_of(&b)
}

} // verus!
