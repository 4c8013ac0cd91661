//! The ticket summary as the server gives it. Nothing is computed here:
//! every figure is printed as it came, and where the server does not know
//! one (an unknown claim, a failed analysis, a head count resting on
//! suggested roles) the view says so instead of printing a zero.
use vstd::prelude::*;

use super::status::grouped;
use crate::sort::{KeyView, SortKey, is_stable_sorted, key_views, stable_sort_indices};
use crate::style::{Paint, Part, Span, parts_of, push_span};
use crate::text::{
    chars_of, concat, decimal, decimal_exec, join, join_strings, pad_right, push_chars, push_padded,
    push_str, signed_decimal, signed_decimal_exec, string_of, texts,
};
use crate::types::tickets::{
    AnalysisOutcome, Count, FreeAllocationCategory, FreeTicketAllocation, ParticipantTally,
    RoleBasis, SponsorTicketData, TicketStats, TicketStatsReady, TicketingAccessState,
};

verus! {

/// An amount in whole units with its thousands grouped.
pub open spec fn money(amount: i64) -> Seq<char> {
    grouped(signed_decimal(amount as int))
}

fn money_exec(amount: i64) -> (r: Vec<char>)
    ensures
        r@ == money(amount),
{
    chars_of(super::status::format_thousands(amount).as_str())
}

/// `n` followed by a word, plural unless `n` is one.
pub open spec fn plural(n: u64, word: Seq<char>) -> Seq<char> {
    decimal(n as nat) + " "@ + word + if n == 1 {
        seq![]
    } else {
        "s"@
    }
}

/// `n` followed by a word, plural unless `n` is one.
pub fn plural_exec(n: u64, word: &str) -> (r: String)
    ensures
        r@ == plural(n, word@),
{
    let mut b = decimal_exec(n);
    push_str(&mut b, " ");
    push_str(&mut b, word);
    if n != 1 {
        push_str(&mut b, "s");
    }
    assert(b@ =~= plural(n, word@));
    string_of(&b)
}

/// Two labelled values on one row.
pub open spec fn row(l1: Seq<char>, v1: Seq<char>, l2: Seq<char>, v2: Seq<char>) -> Seq<char> {
    "  "@ + pad_right(l1, 24) + pad_right(v1, 10) + "  "@ + pad_right(l2, 24) + v2 + "\n"@
}

fn push_row(b: &mut Vec<char>, l1: &str, v1: &[char], l2: &str, v2: &[char])
    ensures
        final(b)@ == old(b)@ + row(l1@, v1@, l2@, v2@),
{
    let ghost b0 = b@;
    push_str(b, "  ");
    push_padded(b, &chars_of(l1), 24);
    push_padded(b, v1, 10);
    push_str(b, "  ");
    push_padded(b, &chars_of(l2), 24);
    push_chars(b, v2);
    push_str(b, "\n");
    assert(b@ =~= b0 + row(l1@, v1@, l2@, v2@));
}

// ── States other than ready ─────────────────────────────────────────────────
/// A state without figures: the provider, and why there are none.
pub open spec fn not_ready_parts(a: TicketingAccessState, note: Seq<char>) -> Seq<Part> {
    seq![
        ("🎟️  Tickets — "@ + a.provider_label@, Some(Paint::Bold)),
        ("\n"@, None),
        (note, Some(Paint::Yellow)),
        ("\n"@, None),
    ]
}

/// A failed read: said to be a failure, never shown as an empty event.
pub open spec fn error_parts(message: Seq<char>) -> Seq<Part> {
    seq![
        ("🎟️  Tickets"@, Some(Paint::Bold)),
        ("\n"@, None),
        ("⚠ Ticket figures unavailable: "@ + message, Some(Paint::Yellow)),
        ("\n"@, None),
    ]
}

// ── Participants ────────────────────────────────────────────────────────────
/// What is not counted as participants, in order.
pub open spec fn uncounted(p: ParticipantTally) -> Seq<Seq<char>> {
    let a: Seq<Seq<char>> = if p.add_ons_with_seat > 0 {
        seq![plural(p.add_ons_with_seat, "add-on"@) + " held by an attendee"@]
    } else {
        seq![]
    };
    let b = if p.add_ons_without_seat > 0 {
        a.push(plural(p.add_ons_without_seat, "add-on"@) + " with no ticket"@)
    } else {
        a
    };
    if p.repeat_tickets > 0 {
        b.push(plural(p.repeat_tickets, "repeat email"@))
    } else {
        b
    }
}

/// The note on what a head count rests on, when it is not declared roles.
pub open spec fn basis_note(b: RoleBasis) -> Option<Seq<char>> {
    match b {
        RoleBasis::Declared => None,
        RoleBasis::Proposed => Some(
            "Assumes suggested ticket type roles — confirm them on Ticket Types"@,
        ),
        RoleBasis::Unknown => Some(
            "Assumes ticket types with no role seat someone — set roles on Ticket Types"@,
        ),
    }
}

/// The participant notes.
pub open spec fn participant_parts(p: ParticipantTally) -> Seq<Part> {
    let u = uncounted(p);
    (if u.len() > 0 {
        seq![
            ("   "@ + join(u, ", "@) + " not counted as participants"@, Some(Paint::Dimmed)),
            ("\n"@, None),
        ]
    } else {
        seq![]
    }) + match basis_note(p.role_basis) {
        Some(n) => seq![("   ⓘ "@ + n, Some(Paint::Yellow)), ("\n"@, None)],
        None => seq![],
    }
}

fn push_participants(out: &mut Vec<Span>, p: &ParticipantTally)
    ensures
        parts_of(final(out)@) == parts_of(old(out)@) + participant_parts(*p),
{
    let ghost start = parts_of(out@);
    let mut left: Vec<String> = Vec::new();
    if p.add_ons_with_seat > 0 {
        let mut t = chars_of(plural_exec(p.add_ons_with_seat, "add-on").as_str());
        push_str(&mut t, " held by an attendee");
        left.push(string_of(&t));
    }
    let ghost l0 = texts(left@);
    if p.add_ons_without_seat > 0 {
        let mut t = chars_of(plural_exec(p.add_ons_without_seat, "add-on").as_str());
        push_str(&mut t, " with no ticket");
        left.push(string_of(&t));
    }
    assert(texts(left@) =~= (if p.add_ons_without_seat > 0 {
        l0.push(plural(p.add_ons_without_seat, "add-on"@) + " with no ticket"@)
    } else {
        l0
    }));
    let ghost l1 = texts(left@);
    if p.repeat_tickets > 0 {
        left.push(plural_exec(p.repeat_tickets, "repeat email"));
    }
    assert(texts(left@) =~= uncounted(*p));
    if left.len() > 0 {
        let mut t = chars_of("   ");
        push_chars(&mut t, &join_strings(&left, ", "));
        push_str(&mut t, " not counted as participants");
        push_span(out, t, Some(Paint::Dimmed));
        push_span(out, chars_of("\n"), None);
    }
    let ghost s1 = parts_of(out@);
    let note: Option<&str> = match p.role_basis {
        RoleBasis::Declared => None,
        RoleBasis::Proposed => Some("Assumes suggested ticket type roles — confirm them on Ticket Types"),
        RoleBasis::Unknown => Some("Assumes ticket types with no role seat someone — set roles on Ticket Types"),
    };
    match note {
        Some(n) => {
            let mut t = chars_of("   ⓘ ");
            push_str(&mut t, n);
            push_span(out, t, Some(Paint::Yellow));
            push_span(out, chars_of("\n"), None);
        },
        None => {},
    }
    assert(parts_of(out@) =~= start + participant_parts(*p));
}

// ── Progress ────────────────────────────────────────────────────────────────
/// The target progress: the figures when analysed, that nothing is sold
/// yet when empty, and that progress is unknown when the analysis failed.
pub open spec fn progress_parts(o: AnalysisOutcome) -> Seq<Part> {
    seq![("\n"@, None)] + match o {
        AnalysisOutcome::Analysed { analysis } => {
            let p = analysis.performance;
            seq![
                ((if p.is_on_track {
                    "✅"@
                } else {
                    "⚠️"@
                }) + " Target Progress"@, Some(Paint::Bold)),
                ("\n"@ + row(
                    "Actual Progress:"@,
                    p.current_percentage@ + "%"@,
                    "Current Target:"@,
                    p.target_percentage@ + "%"@,
                ) + "  "@ + pad_right("Variance:"@, 24), None),
                (if p.variance_non_negative {
                    "+"@ + p.variance@ + "% ahead"@
                } else {
                    p.variance@ + "% behind"@
                }, Some(if p.variance_non_negative {
                    Paint::Green
                } else {
                    Paint::Red
                })),
                ("\n"@ + match p.next_milestone {
                    Some(m) => "  🎯 Next Milestone: "@ + m.label@ + " in "@ + signed_decimal(
                        m.days_away as int,
                    ) + " days ("@ + m.date@ + ")\n"@,
                    None => seq![],
                }, None),
            ]
        },
        AnalysisOutcome::Empty => seq![
            ("📈 Target Progress"@, Some(Paint::Bold)),
            ("\n"@, None),
            ("  No tickets sold yet — nothing to analyse."@, Some(Paint::Dimmed)),
            ("\n"@, None),
        ],
        AnalysisOutcome::Unavailable { error } => seq![
            ("⚠️ Target Progress"@, Some(Paint::Bold)),
            ("\n"@, None),
            ("  Sales analysis failed — progress unknown: "@ + error@, Some(Paint::Yellow)),
            ("\n"@, None),
        ],
    }
}

fn push_progress(out: &mut Vec<Span>, o: &AnalysisOutcome)
    ensures
        parts_of(final(out)@) == parts_of(old(out)@) + progress_parts(*o),
{
    let ghost start = parts_of(out@);
    push_span(out, chars_of("\n"), None);
    match o {
        AnalysisOutcome::Analysed { analysis } => {
            let p = &analysis.performance;
            let mut title: Vec<char> = if p.is_on_track {
                chars_of("✅")
            } else {
                chars_of("⚠️")
            };
            push_str(&mut title, " Target Progress");
            push_span(out, title, Some(Paint::Bold));
            let mut b = chars_of("\n");
            let mut cur = chars_of(p.current_percentage.as_str());
            push_str(&mut cur, "%");
            let mut tgt = chars_of(p.target_percentage.as_str());
            push_str(&mut tgt, "%");
            push_row(&mut b, "Actual Progress:", &cur, "Current Target:", &tgt);
            push_str(&mut b, "  ");
            push_padded(&mut b, &chars_of("Variance:"), 24);
            push_span(out, b, None);
            let mut v: Vec<char> = Vec::new();
            if p.variance_non_negative {
                push_str(&mut v, "+");
                push_str(&mut v, p.variance.as_str());
                push_str(&mut v, "% ahead");
                push_span(out, v, Some(Paint::Green));
            } else {
                push_str(&mut v, p.variance.as_str());
                push_str(&mut v, "% behind");
                push_span(out, v, Some(Paint::Red));
            }
            let mut m = chars_of("\n");
            match &p.next_milestone {
                Some(ms) => {
                    push_str(&mut m, "  🎯 Next Milestone: ");
                    push_str(&mut m, ms.label.as_str());
                    push_str(&mut m, " in ");
                    push_chars(&mut m, &signed_decimal_exec(ms.days_away));
                    push_str(&mut m, " days (");
                    push_str(&mut m, ms.date.as_str());
                    push_str(&mut m, ")\n");
                },
                None => {},
            }
            assert(m@ =~= "\n"@ + match p.next_milestone {
                Some(ms) => "  🎯 Next Milestone: "@ + ms.label@ + " in "@ + signed_decimal(
                    ms.days_away as int,
                ) + " days ("@ + ms.date@ + ")\n"@,
                None => seq![],
            });
            push_span(out, m, None);
            let ghost pp = progress_parts(*o);
            assert(pp.len() == 5);
            assert(parts_of(out@).len() == start.len() + 5);
            assert(parts_of(out@)[start.len() + 0int] == pp[0]);
            assert(parts_of(out@)[start.len() + 1int] == pp[1]);
            assert(parts_of(out@)[start.len() + 2int] == pp[2]);
            assert(parts_of(out@)[start.len() + 3int] == pp[3]);
            assert(parts_of(out@)[start.len() + 4int] == pp[4]);
            assert(parts_of(out@) =~= start + progress_parts(*o));
        },
        AnalysisOutcome::Empty => {
            push_span(out, chars_of("📈 Target Progress"), Some(Paint::Bold));
            push_span(out, chars_of("\n"), None);
            push_span(out, chars_of("  No tickets sold yet — nothing to analyse."), Some(Paint::Dimmed));
            push_span(out, chars_of("\n"), None);
            assert(parts_of(out@) =~= start + progress_parts(*o));
        },
        AnalysisOutcome::Unavailable { error } => {
            push_span(out, chars_of("⚠️ Target Progress"), Some(Paint::Bold));
            push_span(out, chars_of("\n"), None);
            let mut t = chars_of("  Sales analysis failed — progress unknown: ");
            push_str(&mut t, error.as_str());
            push_span(out, t, Some(Paint::Yellow));
            push_span(out, chars_of("\n"), None);
            assert(parts_of(out@) =~= start + progress_parts(*o));
        },
    }
}

// ── Complimentary tickets ───────────────────────────────────────────────────
/// A complimentary category: claimed of allocated (an unknown claim as `?`
/// in yellow, never as zero), then its status.
pub open spec fn free_row_parts(label: Seq<char>, c: FreeAllocationCategory) -> Seq<Part> {
    seq![
        ("  "@ + pad_right(label + ":"@, 14), None),
        (c.claimed.spec_label(), if c.claimed is Unknown {
            Some(Paint::Yellow)
        } else {
            None
        }),
        (" / "@ + c.allocated.spec_label() + " claimed\n"@, None),
        ("   "@ + c.status@ + if c.from_provider {
            " (provider's own counter)"@
        } else {
            seq![]
        }, Some(Paint::Dimmed)),
        ("\n"@, None),
    ]
}

/// What the claimed total covers.
pub open spec fn covers_text(covers: Seq<Seq<char>>) -> Seq<char> {
    if covers.len() == 0 {
        "no category"@
    } else {
        join(covers, ", "@)
    }
}

/// The complimentary section: the three categories, the claimed total
/// (naming what it covers unless it covers all three), and the allocation.
pub open spec fn free_parts(a: FreeTicketAllocation) -> Seq<Part> {
    let covers = texts(a.claimed_covers@);
    seq![("\n"@, None), ("🎁 Complimentary Tickets"@, Some(Paint::Bold)), ("\n"@, None)]
        + free_row_parts("Sponsors"@, a.sponsors) + free_row_parts("Speakers"@, a.speakers)
        + free_row_parts("Organizers"@, a.organizers) + seq![
        ("  "@ + pad_right("Total:"@, 14) + a.total_claimed.spec_label() + " / "@
            + a.claimed_allocated.spec_label() + " claimed"@ + (if covers.len() == 3 {
            seq![]
        } else {
            " ("@ + covers_text(covers) + " only)"@
        }) + "\n"@, None),
        ("   "@ + a.total_allocated.spec_label() + " seats allocated in total"@, Some(Paint::Dimmed)),
        ("\n"@, None),
    ]
}

/// One complimentary category, as spans.
pub fn free_row_spans(label: &str, c: &FreeAllocationCategory) -> (out: Vec<Span>)
    ensures
        parts_of(out@) == free_row_parts(label@, *c),
{
    let mut out: Vec<Span> = Vec::new();
    assert(parts_of(out@) =~= Seq::<Part>::empty());
    let mut l = chars_of(label);
    push_str(&mut l, ":");
    let mut first = chars_of("  ");
    push_padded(&mut first, &l, 14);
    push_span(&mut out, first, None);
    let claimed = chars_of(c.claimed.label().as_str());
    if c.claimed.is_unknown() {
        push_span(&mut out, claimed, Some(Paint::Yellow));
    } else {
        push_span(&mut out, claimed, None);
    }
    let mut rest = chars_of(" / ");
    push_str(&mut rest, c.allocated.label().as_str());
    push_str(&mut rest, " claimed\n");
    push_span(&mut out, rest, None);
    let mut st = chars_of("   ");
    push_str(&mut st, c.status.as_str());
    if c.from_provider {
        push_str(&mut st, " (provider's own counter)");
    }
    push_span(&mut out, st, Some(Paint::Dimmed));
    push_span(&mut out, chars_of("\n"), None);
    assert(parts_of(out@) =~= free_row_parts(label@, *c));
    out
}

fn append_spans(out: &mut Vec<Span>, more: Vec<Span>)
    ensures
        parts_of(final(out)@) == parts_of(old(out)@) + parts_of(more@),
{
    let ghost start = parts_of(out@);
    let mut more = more;
    let ghost m = more@;
    out.append(&mut more);
    assert(parts_of(out@) =~= start + parts_of(m));
}

fn push_free(out: &mut Vec<Span>, a: &FreeTicketAllocation)
    ensures
        parts_of(final(out)@) == parts_of(old(out)@) + free_parts(*a),
{
    let ghost start = parts_of(out@);
    push_span(out, chars_of("\n"), None);
    push_span(out, chars_of("🎁 Complimentary Tickets"), Some(Paint::Bold));
    push_span(out, chars_of("\n"), None);
    let ghost s0 = parts_of(out@);
    append_spans(out, free_row_spans("Sponsors", &a.sponsors));
    append_spans(out, free_row_spans("Speakers", &a.speakers));
    append_spans(out, free_row_spans("Organizers", &a.organizers));
    let ghost s1 = parts_of(out@);
    let ghost covers = texts(a.claimed_covers@);
    let mut t = chars_of("  ");
    push_padded(&mut t, &chars_of("Total:"), 14);
    push_str(&mut t, a.total_claimed.label().as_str());
    push_str(&mut t, " / ");
    push_str(&mut t, a.claimed_allocated.label().as_str());
    push_str(&mut t, " claimed");
    if a.claimed_covers.len() != 3 {
        push_str(&mut t, " (");
        if a.claimed_covers.len() == 0 {
            push_str(&mut t, "no category");
        } else {
            push_chars(&mut t, &join_strings(&a.claimed_covers, ", "));
        }
        push_str(&mut t, " only)");
    }
    push_str(&mut t, "\n");
    assert(t@ =~= "  "@ + pad_right("Total:"@, 14) + a.total_claimed.spec_label() + " / "@
        + a.claimed_allocated.spec_label() + " claimed"@ + (if covers.len() == 3 {
        seq![]
    } else {
        " ("@ + covers_text(covers) + " only)"@
    }) + "\n"@);
    push_span(out, t, None);
    let mut al = chars_of("   ");
    push_str(&mut al, a.total_allocated.label().as_str());
    push_str(&mut al, " seats allocated in total");
    push_span(out, al, Some(Paint::Dimmed));
    push_span(out, chars_of("\n"), None);
    assert(parts_of(out@) =~= start + free_parts(*a));
}

// ── Categories and tiers ────────────────────────────────────────────────────
/// A paid-ticket category's line.
pub open spec fn category_line(c: crate::types::tickets::CategoryStat) -> Seq<char> {
    "  "@ + c.category@ + ": "@ + decimal(c.count as nat) + " tickets ("@ + c.percentage@ + "%) · "@
        + money(c.revenue) + " · "@ + decimal(c.orders as nat) + " orders\n"@
}

/// The lines of the categories.
pub open spec fn category_line_list(cs: Seq<crate::types::tickets::CategoryStat>) -> Seq<Seq<char>> {
    cs.map_values(|c: crate::types::tickets::CategoryStat| category_line(c))
}

/// The paid-ticket categories, one line each.
pub open spec fn category_lines(r: TicketStatsReady) -> Seq<char> {
    concat(category_line_list(r.category_stats@))
}

fn category_line_exec(c: &crate::types::tickets::CategoryStat) -> (b: Vec<char>)
    ensures
        b@ == category_line(*c),
{
    let mut b = chars_of("  ");
    push_str(&mut b, c.category.as_str());
    push_str(&mut b, ": ");
    push_chars(&mut b, &decimal_exec(c.count));
    push_str(&mut b, " tickets (");
    push_str(&mut b, c.percentage.as_str());
    push_str(&mut b, "%) · ");
    push_chars(&mut b, &money_exec(c.revenue));
    push_str(&mut b, " · ");
    push_chars(&mut b, &decimal_exec(c.orders));
    push_str(&mut b, " orders\n");
    b
}

/// The category section, when there are categories.
pub open spec fn category_parts(r: TicketStatsReady) -> Seq<Part> {
    if r.category_stats@.len() == 0 {
        seq![]
    } else {
        seq![
            ("\n"@, None),
            ("Breakdown by Paid Ticket Category:"@, Some(Paint::Bold)),
            ("\n"@ + category_lines(r), None),
        ]
    }
}

fn push_categories(out: &mut Vec<Span>, r: &TicketStatsReady)
    ensures
        parts_of(final(out)@) == parts_of(old(out)@) + category_parts(*r),
{
    let ghost start = parts_of(out@);
    if r.category_stats.len() == 0 {
        assert(parts_of(out@) =~= start + category_parts(*r));
        return;
    }
    push_span(out, chars_of("\n"), None);
    push_span(out, chars_of("Breakdown by Paid Ticket Category:"), Some(Paint::Bold));
    let ghost lv = category_line_list(r.category_stats@);
    let mut b = chars_of("\n");
    let ghost b0 = b@;
    let mut i: usize = 0;
    assert(lv.take(0) =~= Seq::<Seq<char>>::empty());
    while i < r.category_stats.len()
        invariant
            i <= r.category_stats@.len(),
            lv == category_line_list(r.category_stats@),
            b@ == b0 + concat(lv.take(i as int)),
        decreases r.category_stats@.len() - i,
    {
        let line = category_line_exec(&r.category_stats[i]);
        push_chars(&mut b, &line);
        i = i + 1;
        assert(lv.take(i as int).drop_last() =~= lv.take(i - 1));
        assert(b@ =~= b0 + concat(lv.take(i as int)));
    }
    assert(lv.take(i as int) =~= lv);
    push_span(out, b, None);
    assert(parts_of(out@) =~= start + category_parts(*r));
}

/// A tier's line.
pub open spec fn tier_line(t: (String, SponsorTicketData)) -> Seq<char> {
    "  "@ + t.0@ + ": "@ + decimal(t.1.tickets as nat) + " seats · "@ + decimal(t.1.sponsors as nat)
        + " sponsors · "@ + decimal(t.1.tickets_per_sponsor as nat) + " per sponsor\n"@
}

/// The keys tiers are ordered by: their seats.
pub open spec fn tier_keys(ts: Seq<(String, SponsorTicketData)>) -> Seq<KeyView> {
    ts.map_values(|t: (String, SponsorTicketData)| KeyView::Num(t.1.tickets as int))
}

/// The tier lines in the order of `perm`.
pub open spec fn tier_lines(ts: Seq<(String, SponsorTicketData)>, perm: Seq<usize>) -> Seq<char> {
    concat(perm.map_values(|k: usize| tier_line(ts[k as int])))
}

/// The tier section: tiers with most seats first (equal ones in their
/// given order).
pub open spec fn tier_parts(r: TicketStatsReady, perm: Seq<usize>) -> Seq<Part> {
    if r.sponsor_tickets_by_tier@.len() == 0 {
        seq![]
    } else {
        seq![
            ("\n"@, None),
            ("Sponsor Seats by Tier ("@ + decimal(r.sponsor_allocation_total as nat) + " allocated):"@, Some(Paint::Bold)),
            ("\n"@ + tier_lines(r.sponsor_tickets_by_tier@, perm), None),
        ]
    }
}

fn push_tiers(out: &mut Vec<Span>, r: &TicketStatsReady) -> (perm: Ghost<Seq<usize>>)
    ensures
        is_stable_sorted(tier_keys(r.sponsor_tickets_by_tier@), perm@, true),
        parts_of(final(out)@) == parts_of(old(out)@) + tier_parts(*r, perm@),
{
    let ghost start = parts_of(out@);
    let ts = &r.sponsor_tickets_by_tier;
    let mut keys: Vec<SortKey> = Vec::new();
    let mut i: usize = 0;
    while i < ts.len()
        invariant
            i <= ts@.len(),
            keys@.len() == i,
            forall|j: int| 0 <= j < i ==> (#[trigger] keys@[j])@ == KeyView::Num(ts@[j].1.tickets as int),
        decreases ts@.len() - i,
    {
        keys.push(SortKey::Num(ts[i].1.tickets as i128));
        i = i + 1;
    }
    assert(key_views(keys@) =~= tier_keys(ts@));
    let perm = stable_sort_indices(&keys, true);
    if ts.len() == 0 {
        assert(parts_of(out@) =~= start + tier_parts(*r, perm@));
        return Ghost(perm@);
    }
    push_span(out, chars_of("\n"), None);
    let mut t = chars_of("Sponsor Seats by Tier (");
    push_chars(&mut t, &decimal_exec(r.sponsor_allocation_total));
    push_str(&mut t, " allocated):");
    push_span(out, t, Some(Paint::Bold));
    let ghost lv = perm@.map_values(|k: usize| tier_line(ts@[k as int]));
    let mut b = chars_of("\n");
    let ghost b0 = b@;
    let mut k: usize = 0;
    assert(lv.take(0) =~= Seq::<Seq<char>>::empty());
    while k < perm.len()
        invariant
            k <= perm@.len(),
            perm@.len() == ts@.len(),
            forall|j: int| 0 <= j < perm@.len() ==> #[trigger] perm@[j] < ts@.len(),
            lv == perm@.map_values(|k: usize| tier_line(ts@[k as int])),
            b@ == b0 + concat(lv.take(k as int)),
        decreases perm@.len() - k,
    {
        let e = &ts[perm[k]];
        let ghost bb = b@;
        push_str(&mut b, "  ");
        push_str(&mut b, e.0.as_str());
        push_str(&mut b, ": ");
        push_chars(&mut b, &decimal_exec(e.1.tickets));
        push_str(&mut b, " seats · ");
        push_chars(&mut b, &decimal_exec(e.1.sponsors));
        push_str(&mut b, " sponsors · ");
        push_chars(&mut b, &decimal_exec(e.1.tickets_per_sponsor));
        push_str(&mut b, " per sponsor\n");
        assert(b@ =~= bb + lv[k as int]);
        k = k + 1;
        assert(lv.take(k as int).drop_last() =~= lv.take(k - 1));
        assert(b@ =~= b0 + concat(lv.take(k as int)));
    }
    assert(lv.take(k as int) =~= lv);
    push_span(out, b, None);
    assert(parts_of(out@) =~= start + tier_parts(*r, perm@));
    Ghost(perm@)
}

// ── The whole view ──────────────────────────────────────────────────────────
/// The head and the counts of a ready summary.
pub open spec fn ready_head(r: TicketStatsReady) -> Seq<Part> {
    seq![
        ("🎟️  Tickets — "@ + r.provider_label@, Some(Paint::Bold)),
        ("\n"@, None),
        ("   Amounts "@ + (if r.amounts_include_vat {
            "include"@
        } else {
            "exclude"@
        }) + " VAT"@ + (if r.revenue_apportioned {
            " · per-type revenue is apportioned across mixed orders"@
        } else {
            seq![]
        }), Some(Paint::Dimmed)),
        ("\n"@, None),
        ("\n"@ + row(
            "Tickets:"@,
            decimal(r.ticket_counts.all as nat),
            "Paid:"@,
            decimal(r.ticket_counts.paid as nat),
        ) + row(
            "Free:"@,
            decimal(r.ticket_counts.free as nat),
            "Capacity:"@,
            if r.capacity == 0 {
                "not set"@
            } else {
                decimal(r.capacity as nat)
            },
        ) + row(
            "Participants:"@,
            decimal(r.participants.participants as nat),
            "Seats used:"@,
            decimal(r.seats_used as nat),
        ), None),
    ]
}

/// The revenue section.
pub open spec fn revenue_parts(r: TicketStatsReady) -> Seq<Part> {
    seq![
        ("\n"@, None),
        ("💰 Revenue (paid tickets)"@, Some(Paint::Bold)),
        ("\n"@ + row(
            "Total Revenue:"@,
            money(r.statistics.total_revenue),
            "Orders:"@,
            decimal(r.statistics.total_orders as nat),
        ) + row(
            "Average Price:"@,
            money(r.statistics.average_ticket_price),
            "Paid Tickets:"@,
            decimal(r.statistics.total_paid_tickets as nat),
        ), None),
    ]
}

/// A ready summary, given the order of its tiers.
pub open spec fn ready_parts(r: TicketStatsReady, perm: Seq<usize>) -> Seq<Part> {
    ready_head(r) + participant_parts(r.participants) + revenue_parts(r) + progress_parts(
        r.analysis.paid,
    ) + category_parts(r) + free_parts(r.free_ticket_allocation) + tier_parts(r, perm)
}

fn push_ready_head(out: &mut Vec<Span>, r: &TicketStatsReady)
    ensures
        parts_of(final(out)@) == parts_of(old(out)@) + ready_head(*r),
{
    let ghost start = parts_of(out@);
    let mut t = chars_of("🎟️  Tickets — ");
    push_str(&mut t, r.provider_label.as_str());
    push_span(out, t, Some(Paint::Bold));
    push_span(out, chars_of("\n"), None);
    let mut a = chars_of("   Amounts ");
    if r.amounts_include_vat {
        push_str(&mut a, "include");
    } else {
        push_str(&mut a, "exclude");
    }
    push_str(&mut a, " VAT");
    if r.revenue_apportioned {
        push_str(&mut a, " · per-type revenue is apportioned across mixed orders");
    }
    push_span(out, a, Some(Paint::Dimmed));
    push_span(out, chars_of("\n"), None);
    let mut b = chars_of("\n");
    push_row(&mut b, "Tickets:", &decimal_exec(r.ticket_counts.all), "Paid:", &decimal_exec(r.ticket_counts.paid));
    let cap: Vec<char> = if r.capacity == 0 {
        chars_of("not set")
    } else {
        decimal_exec(r.capacity)
    };
    push_row(&mut b, "Free:", &decimal_exec(r.ticket_counts.free), "Capacity:", &cap);
    push_row(
        &mut b,
        "Participants:",
        &decimal_exec(r.participants.participants),
        "Seats used:",
        &decimal_exec(r.seats_used),
    );
    push_span(out, b, None);
    assert(parts_of(out@) =~= start + ready_head(*r));
}

fn push_revenue(out: &mut Vec<Span>, r: &TicketStatsReady)
    ensures
        parts_of(final(out)@) == parts_of(old(out)@) + revenue_parts(*r),
{
    let ghost start = parts_of(out@);
    push_span(out, chars_of("\n"), None);
    push_span(out, chars_of("💰 Revenue (paid tickets)"), Some(Paint::Bold));
    let mut b = chars_of("\n");
    push_row(
        &mut b,
        "Total Revenue:",
        &money_exec(r.statistics.total_revenue),
        "Orders:",
        &decimal_exec(r.statistics.total_orders),
    );
    push_row(
        &mut b,
        "Average Price:",
        &money_exec(r.statistics.average_ticket_price),
        "Paid Tickets:",
        &decimal_exec(r.statistics.total_paid_tickets),
    );
    push_span(out, b, None);
    assert(parts_of(out@) =~= start + revenue_parts(*r));
}

/// The view of a ticket summary in any state.
pub open spec fn stats_parts(s: TicketStats, perm: Seq<usize>) -> Seq<Part> {
    match s {
        TicketStats::Ready(r) => ready_parts(*r, perm),
        TicketStats::Unconfigured(a) => not_ready_parts(
            a,
            "Ticketing is not configured for this conference."@,
        ),
        TicketStats::Unavailable(a) => not_ready_parts(
            a,
            "Ticketing is configured but unavailable — check the provider credentials."@,
        ),
        TicketStats::Disabled(a) => not_ready_parts(a, "Ticketing is disabled for this conference."@),
        TicketStats::Error { message } => error_parts(message@),
    }
}

fn not_ready_spans(a: &TicketingAccessState, note: &str) -> (out: Vec<Span>)
    ensures
        parts_of(out@) == not_ready_parts(*a, note@),
{
    let mut out: Vec<Span> = Vec::new();
    assert(parts_of(out@) =~= Seq::<Part>::empty());
    let mut t = chars_of("🎟️  Tickets — ");
    push_str(&mut t, a.provider_label.as_str());
    push_span(&mut out, t, Some(Paint::Bold));
    push_span(&mut out, chars_of("\n"), None);
    push_span(&mut out, chars_of(note), Some(Paint::Yellow));
    push_span(&mut out, chars_of("\n"), None);
    assert(parts_of(out@) =~= not_ready_parts(*a, note@));
    out
}

/// The spans of a ticket summary.
pub fn ticket_stats_spans(s: &TicketStats) -> (out: Vec<Span>)
    ensures
        exists|perm: Seq<usize>|
            (s matches TicketStats::Ready(r) ==> is_stable_sorted(
                tier_keys(r.sponsor_tickets_by_tier@),
                perm,
                true,
            )) && parts_of(out@) == stats_parts(*s, perm),
{
    match s {
        TicketStats::Ready(r) => {
            let mut out: Vec<Span> = Vec::new();
            assert(parts_of(out@) =~= Seq::<Part>::empty());
            push_ready_head(&mut out, r);
            push_participants(&mut out, &r.participants);
            push_revenue(&mut out, r);
            push_progress(&mut out, &r.analysis.paid);
            push_categories(&mut out, r);
            push_free(&mut out, &r.free_ticket_allocation);
            let perm = push_tiers(&mut out, r);
            assert(parts_of(out@) =~= ready_parts(**r, perm@));
            assert(parts_of(out@) == stats_parts(*s, perm@));
            out
        },
        TicketStats::Unconfigured(a) => {
            let out = not_ready_spans(a, "Ticketing is not configured for this conference.");
            assert(parts_of(out@) == stats_parts(*s, seq![]));
            out
        },
        TicketStats::Unavailable(a) => {
            let out = not_ready_spans(
                a,
                "Ticketing is configured but unavailable — check the provider credentials.",
            );
            assert(parts_of(out@) == stats_parts(*s, seq![]));
            out
        },
        TicketStats::Disabled(a) => {
            let out = not_ready_spans(a, "Ticketing is disabled for this conference.");
            assert(parts_of(out@) == stats_parts(*s, seq![]));
            out
        },
        TicketStats::Error { message } => {
            let mut out: Vec<Span> = Vec::new();
            assert(parts_of(out@) =~= Seq::<Part>::empty());
            push_span(&mut out, chars_of("🎟️  Tickets"), Some(Paint::Bold));
            push_span(&mut out, chars_of("\n"), None);
            let mut t = chars_of("⚠ Ticket figures unavailable: ");
            push_str(&mut t, message.as_str());
            push_span(&mut out, t, Some(Paint::Yellow));
            push_span(&mut out, chars_of("\n"), None);
            assert(parts_of(out@) =~= stats_parts(*s, seq![]));
            out
        },
    }
}

/// An unknown claim is shown as `?`, never as a number: the view never
/// turns what the server could not count into a zero.
pub proof fn lemma_unknown_claim_not_zero(label: Seq<char>, c: FreeAllocationCategory)
    requires
        c.claimed is Unknown,
    ensures
        free_row_parts(label, c)[1] == ("?"@, Some(Paint::Yellow)),
        free_row_parts(label, c)[1].0 != decimal(0),
{
    reveal_strlit("?");
    assert(decimal(0) =~= seq!['0']);
    assert("?"@[0] == '?');
}

} // verus!
