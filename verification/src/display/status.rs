//! The conference status overview: sponsors, proposals, tickets and the
//! sales target, in aligned rows.
use vstd::prelude::*;

use crate::sort::{KeyView, SortKey, apply_permutation, is_stable_sorted, key_views, stable_sort_indices};
use crate::style::{Paint, Part, Span, is_painted, paint, parts_of, push_span};
use crate::text::{
    chars_of, decimal, decimal_exec, join, join_strings, pad_right, push_chars, push_padded,
    push_str, signed_decimal, signed_decimal_exec, string_of, texts,
};
use crate::types::{
    ConferenceStatusSummary, ProposalSummary, SectionError, SponsorPipeline, TargetProgress,
    TicketSummary,
};

verus! {

// ── Numbers ─────────────────────────────────────────────────────────────────
/// The no-break space that separates groups of thousands.
pub open spec fn nbsp() -> char {
    '\u{a0}'
}

/// A decimal text grouped in threes from the right, the groups separated by
/// no-break spaces (a sign counts as a digit, as it does in the grouping).
pub open spec fn grouped(s: Seq<char>) -> Seq<char>
    decreases s.len(),
{
    if s.len() <= 3 {
        s
    } else {
        grouped(s.take(s.len() - 3)) + seq![nbsp()] + s.skip(s.len() - 3)
    }
}

fn grouped_exec(s: &[char], end: usize) -> (r: Vec<char>)
    requires
        end <= s@.len(),
    ensures
        r@ == grouped(s@.take(end as int)),
    decreases end,
{
    if end <= 3 {
        let mut out: Vec<char> = Vec::new();
        let mut i: usize = 0;
        while i < end
            invariant
                i <= end <= s@.len(),
                out@ == s@.take(i as int),
            decreases end - i,
        {
            out.push(s[i]);
            i = i + 1;
            assert(out@ =~= s@.take(i as int));
        }
        out
    } else {
        let start: usize = end - 3;
        let mut out = grouped_exec(s, start);
        out.push('\u{a0}');
        let mut i: usize = start;
        let ghost head = out@;
        assert(s@.subrange(start as int, start as int) =~= Seq::<char>::empty());
        assert(out@ =~= head + s@.subrange(start as int, i as int));
        while i < end
            invariant
                start <= i <= end <= s@.len(),
                out@ == head + s@.subrange(start as int, i as int),
            decreases end - i,
        {
            let ghost prev = out@;
            out.push(s[i]);
            i = i + 1;
            assert(s@.subrange(start as int, i as int) =~= s@.subrange(start as int, i - 1).push(
                s@[i - 1],
            ));
            assert(out@ =~= head + s@.subrange(start as int, i as int));
        }
        let ghost t = s@.take(end as int);
        assert(t.take(t.len() - 3) =~= s@.take(end - 3));
        assert(t.skip(t.len() - 3) =~= s@.subrange(end - 3, end as int));
        out
    }
}

/// `n` with its thousands grouped.
pub fn format_thousands(n: i64) -> (r: String)
    ensures
        r@ == grouped(signed_decimal(n as int)),
{
    let d = signed_decimal_exec(n);
    let g = grouped_exec(&d, d.len());
    assert(d@.take(d@.len() as int) =~= d@);
    string_of(&g)
}

/// An amount in whole units, grouped, with its currency.
pub open spec fn currency_text(amount: i64, currency: Seq<char>) -> Seq<char> {
    grouped(signed_decimal(amount as int)) + " "@ + currency
}

fn currency_exec(amount: i64, currency: &str) -> (r: Vec<char>)
    ensures
        r@ == currency_text(amount, currency@),
{
    let mut b = chars_of(format_thousands(amount).as_str());
    push_str(&mut b, " ");
    push_str(&mut b, currency);
    b
}

// ── Counts by name ──────────────────────────────────────────────────────────
/// The entries with a count above zero, in order.
pub open spec fn positive(es: Seq<(String, usize)>) -> Seq<(String, usize)>
    decreases es.len(),
{
    if es.len() == 0 {
        seq![]
    } else {
        let rest = positive(es.drop_last());
        if es.last().1 > 0 {
            rest.push(es.last())
        } else {
            rest
        }
    }
}

/// The keys entries are ordered by: their counts.
pub open spec fn count_keys(es: Seq<(String, usize)>) -> Seq<KeyView> {
    es.map_values(|e: (String, usize)| KeyView::Num(e.1 as int))
}

/// An entry as `name: count`.
pub open spec fn entry_text(e: (String, usize)) -> Seq<char> {
    e.0@ + ": "@ + decimal(e.1 as nat)
}

/// `es` listed by `perm`, each as `name: count`.
pub open spec fn listed(es: Seq<(String, usize)>, perm: Seq<usize>) -> Seq<Seq<char>> {
    perm.map_values(|k: usize| entry_text(es[k as int]))
}

/// `text` is the entries with a count above zero, largest count first
/// (entries with equal counts in their given order), joined by ` · `.
pub open spec fn is_map_text(es: Seq<(String, usize)>, text: Seq<char>) -> bool {
    exists|perm: Seq<usize>|
        is_stable_sorted(count_keys(positive(es)), perm, true) && text == join(
            #[trigger] listed(positive(es), perm),
            " · "@,
        )
}

fn entries_by_count(es: &[(String, usize)], only_positive: bool) -> (r: (Vec<String>, Ghost<Seq<usize>>))
    ensures
        ({
            let sel = if only_positive {
                positive(es@)
            } else {
                es@
            };
            is_stable_sorted(count_keys(sel), r.1@, true) && texts(r.0@) == listed(sel, r.1@)
        }),
{
    let mut sel: Vec<usize> = Vec::new();
    let mut keys: Vec<SortKey> = Vec::new();
    let ghost mut chosen: Seq<(String, usize)> = seq![];
    let mut i: usize = 0;
    assert(es@.take(0) =~= Seq::<(String, usize)>::empty());
    while i < es.len()
        invariant
            i <= es@.len(),
            chosen == (if only_positive {
                positive(es@.take(i as int))
            } else {
                es@.take(i as int)
            }),
            sel@.len() == chosen.len(),
            keys@.len() == chosen.len(),
            forall|j: int| 0 <= j < sel@.len() ==> #[trigger] sel@[j] < i,
            forall|j: int| 0 <= j < sel@.len() ==> es@[sel@[j] as int] == chosen[j],
            forall|j: int| 0 <= j < keys@.len() ==> (#[trigger] keys@[j])@ == KeyView::Num(
                chosen[j].1 as int,
            ),
        decreases es@.len() - i,
    {
        assert(es@.take(i + 1).drop_last() =~= es@.take(i as int));
        if !only_positive || es[i].1 > 0 {
            sel.push(i);
            keys.push(SortKey::Num(es[i].1 as i128));
            proof {
                chosen = chosen.push(es@[i as int]);
            }
        }
        i = i + 1;
        assert(es@.take(i as int) == es@.take(i as int));
    }
    assert(es@.take(i as int) =~= es@);
    assert(key_views(keys@) =~= count_keys(chosen));
    let perm = stable_sort_indices(&keys, true);
    let mut out: Vec<String> = Vec::new();
    let mut k: usize = 0;
    while k < perm.len()
        invariant
            k <= perm@.len(),
            perm@.len() == chosen.len(),
            sel@.len() == chosen.len(),
            forall|j: int| 0 <= j < perm@.len() ==> #[trigger] perm@[j] < chosen.len(),
            forall|j: int| 0 <= j < sel@.len() ==> #[trigger] sel@[j] < es@.len(),
            forall|j: int| 0 <= j < sel@.len() ==> es@[sel@[j] as int] == chosen[j],
            texts(out@) == listed(chosen, perm@.take(k as int)),
        decreases perm@.len() - k,
    {
        let e = &es[sel[perm[k]]];
        let mut b = chars_of(e.0.as_str());
        push_str(&mut b, ": ");
        push_chars(&mut b, &decimal_exec(e.1 as u64));
        let ghost before = texts(out@);
        out.push(string_of(&b));
        k = k + 1;
        assert(texts(out@) =~= before.push(entry_text(chosen[perm@[k - 1] as int])));
        assert(listed(chosen, perm@.take(k as int)) =~= listed(chosen, perm@.take(k - 1)).push(
            entry_text(chosen[perm@[k - 1] as int]),
        ));
    }
    assert(perm@.take(k as int) =~= perm@);
    (out, Ghost(perm@))
}

/// The entries with a count above zero, largest first, as `name: count`
/// joined by ` · `.
pub fn format_map(es: &[(String, usize)]) -> (r: String)
    ensures
        is_map_text(es@, r@),
{
    let (items, perm) = entries_by_count(es, true);
    let j = join_strings(&items, " · ");
    assert(is_stable_sorted(count_keys(positive(es@)), perm@, true) && j@ == join(
        listed(positive(es@), perm@),
        " · "@,
    ));
    string_of(&j)
}

// ── Rows ────────────────────────────────────────────────────────────────────
/// Two labelled counts on one row.
pub open spec fn row_text(l1: Seq<char>, v1: nat, l2: Seq<char>, v2: nat) -> Seq<char> {
    "  "@ + pad_right(l1, 24) + pad_right(decimal(v1), 6) + "  "@ + pad_right(l2, 24) + decimal(v2)
        + "\n"@
}

fn push_row(b: &mut Vec<char>, l1: &str, v1: usize, l2: &str, v2: usize)
    ensures
        final(b)@ == old(b)@ + row_text(l1@, v1 as nat, l2@, v2 as nat),
{
    let ghost b0 = b@;
    push_str(b, "  ");
    push_padded(b, &chars_of(l1), 24);
    push_padded(b, &decimal_exec(v1 as u64), 6);
    push_str(b, "  ");
    push_padded(b, &chars_of(l2), 24);
    push_chars(b, &decimal_exec(v2 as u64));
    push_str(b, "\n");
    assert(b@ =~= b0 + row_text(l1@, v1 as nat, l2@, v2 as nat));
}

/// A row with a text in the first value column.
pub open spec fn text_row(l1: Seq<char>, v1: Seq<char>, l2: Seq<char>, v2: Seq<char>) -> Seq<char> {
    "  "@ + pad_right(l1, 24) + pad_right(v1, 6) + "  "@ + pad_right(l2, 24) + v2 + "\n"@
}

fn push_text_row(b: &mut Vec<char>, l1: &str, v1: &[char], l2: &str, v2: &[char])
    ensures
        final(b)@ == old(b)@ + text_row(l1@, v1@, l2@, v2@),
{
    let ghost b0 = b@;
    push_str(b, "  ");
    push_padded(b, &chars_of(l1), 24);
    push_padded(b, v1, 6);
    push_str(b, "  ");
    push_padded(b, &chars_of(l2), 24);
    push_chars(b, v2);
    push_str(b, "\n");
    assert(b@ =~= b0 + text_row(l1@, v1@, l2@, v2@));
}

// ── Sections ────────────────────────────────────────────────────────────────
/// The won share of closed deals as the overview prints it.
pub open spec fn win_rate(sp: SponsorPipeline) -> Seq<char> {
    if sp.closed_won_count + sp.closed_lost_count > 0 {
        sp.win_rate_text@ + "%"@
    } else {
        "0%"@
    }
}

/// A count-by-name line, when some count is above zero.
pub open spec fn map_line(label: Seq<char>, text: Seq<char>) -> Seq<char> {
    if text.len() > 0 {
        "  "@ + pad_right(label, 19) + text + "\n"@
    } else {
        seq![]
    }
}

/// The sponsor section's rows, given the texts of its three counts by name.
pub open spec fn sponsor_rows(sp: SponsorPipeline, maps: Seq<Seq<char>>) -> Seq<char> {
    "\n"@ + row_text(
        "Total Sponsors:"@,
        sp.total_sponsors as nat,
        "Active Deals:"@,
        sp.active_deals as nat,
    ) + row_text(
        "Closed Won:"@,
        sp.closed_won_count as nat,
        "Closed Lost:"@,
        sp.closed_lost_count as nat,
    ) + (if sp.has_contract_value {
        text_row(
            "Total Contract Value:"@,
            currency_text(sp.total_contract_value, sp.contract_currency@),
            "Win Rate:"@,
            win_rate(sp),
        )
    } else {
        seq![]
    }) + map_line("Pipeline Stages:"@, maps[0]) + map_line("Invoice Status:"@, maps[1]) + map_line(
        "Contract Status:"@,
        maps[2],
    )
}

/// The sponsor section.
pub open spec fn sponsor_section(sp: SponsorPipeline, maps: Seq<Seq<char>>) -> Seq<Part> {
    seq![("\n"@, None), ("🤝 Sponsor Pipeline"@, Some(Paint::Bold)), (sponsor_rows(sp, maps), None)]
}

/// The texts of the three counts by name are what `format_map` gives.
pub open spec fn sponsor_maps_ok(sp: SponsorPipeline, maps: Seq<Seq<char>>) -> bool {
    maps.len() == 3 && is_map_text(sp.by_status@, maps[0]) && is_map_text(
        sp.by_invoice_status@,
        maps[1],
    ) && is_map_text(sp.by_contract_status@, maps[2])
}

fn push_map_line(b: &mut Vec<char>, label: &str, text: &String)
    ensures
        final(b)@ == old(b)@ + map_line(label@, text@),
{
    let ghost b0 = b@;
    if !text.as_str().is_empty() {
        push_str(b, "  ");
        push_padded(b, &chars_of(label), 19);
        push_str(b, text.as_str());
        push_str(b, "\n");
    }
    assert(b@ =~= b0 + map_line(label@, text@));
}

fn push_sponsors(out: &mut Vec<Span>, sp: &SponsorPipeline)
    requires
        sp.closed_won_count + sp.closed_lost_count <= usize::MAX,
    ensures
        exists|maps: Seq<Seq<char>>|
            sponsor_maps_ok(*sp, maps) && parts_of(final(out)@) == parts_of(old(out)@)
                + sponsor_section(*sp, maps),
{
    let ghost start = parts_of(out@);
    push_span(out, chars_of("\n"), None);
    push_span(out, chars_of("🤝 Sponsor Pipeline"), Some(Paint::Bold));
    let mut b = chars_of("\n");
    push_row(&mut b, "Total Sponsors:", sp.total_sponsors, "Active Deals:", sp.active_deals);
    push_row(&mut b, "Closed Won:", sp.closed_won_count, "Closed Lost:", sp.closed_lost_count);
    let ghost b1 = b@;
    if sp.has_contract_value {
        let closed = sp.closed_won_count + sp.closed_lost_count;
        let rate: Vec<char> = if closed > 0 {
            let mut r = chars_of(sp.win_rate_text.as_str());
            push_str(&mut r, "%");
            r
        } else {
            chars_of("0%")
        };
        let cur = currency_exec(sp.total_contract_value, sp.contract_currency.as_str());
        push_text_row(&mut b, "Total Contract Value:", &cur, "Win Rate:", &rate);
    }
    let m0 = format_map(&sp.by_status);
    let m1 = format_map(&sp.by_invoice_status);
    let m2 = format_map(&sp.by_contract_status);
    let ghost maps = seq![m0@, m1@, m2@];
    push_map_line(&mut b, "Pipeline Stages:", &m0);
    push_map_line(&mut b, "Invoice Status:", &m1);
    push_map_line(&mut b, "Contract Status:", &m2);
    assert(b@ =~= sponsor_rows(*sp, maps));
    push_span(out, b, None);
    assert(sponsor_maps_ok(*sp, maps));
    assert(parts_of(out@) =~= start + sponsor_section(*sp, maps));
}

/// The proposal section.
pub open spec fn proposal_section(pr: ProposalSummary) -> Seq<Part> {
    seq![
        ("\n"@, None),
        ("📝 CFP / Proposals"@, Some(Paint::Bold)),
        ("\n"@ + row_text("Total Proposals:"@, pr.total as nat, "Submitted:"@, pr.submitted as nat)
            + row_text("Accepted:"@, pr.accepted as nat, "Confirmed:"@, pr.confirmed as nat) + if pr.rejected
            > 0 || pr.withdrawn > 0 {
            row_text("Rejected:"@, pr.rejected as nat, "Withdrawn:"@, pr.withdrawn as nat)
        } else {
            seq![]
        }, None),
    ]
}

fn push_proposals(out: &mut Vec<Span>, pr: &ProposalSummary)
    ensures
        parts_of(final(out)@) == parts_of(old(out)@) + proposal_section(*pr),
{
    let ghost start = parts_of(out@);
    push_span(out, chars_of("\n"), None);
    push_span(out, chars_of("📝 CFP / Proposals"), Some(Paint::Bold));
    let mut b = chars_of("\n");
    push_row(&mut b, "Total Proposals:", pr.total, "Submitted:", pr.submitted);
    push_row(&mut b, "Accepted:", pr.accepted, "Confirmed:", pr.confirmed);
    let ghost b1 = b@;
    if pr.rejected > 0 || pr.withdrawn > 0 {
        push_row(&mut b, "Rejected:", pr.rejected, "Withdrawn:", pr.withdrawn);
    }
    push_span(out, b, None);
    assert(parts_of(out@) =~= start + proposal_section(*pr));
}

/// The complimentary tickets: sponsors', speakers' and organizers'.
pub open spec fn complimentary(tk: TicketSummary) -> nat {
    (tk.sponsor_tickets + tk.speaker_tickets + tk.organizer_tickets) as nat
}

/// The ticket section.
pub open spec fn ticket_section(tk: TicketSummary) -> Seq<Part> {
    seq![
        ("\n"@, None),
        ("🎟️  Tickets"@, Some(Paint::Bold)),
        ("\n"@ + text_row(
            "Paid Tickets:"@,
            decimal(tk.paid_tickets as nat),
            "Total Revenue:"@,
            currency_text(tk.total_revenue, "kr"@),
        ) + text_row(
            "Total Tickets:"@,
            decimal(tk.total_tickets as nat),
            "Complimentary:"@,
            decimal(complimentary(tk)) + " (claimed "@ + decimal(tk.free_tickets_claimed as nat)
                + ", rate "@ + tk.free_ticket_claim_rate@ + "%)"@,
        ), None),
    ]
}

fn push_tickets(out: &mut Vec<Span>, tk: &TicketSummary)
    requires
        tk.sponsor_tickets + tk.speaker_tickets + tk.organizer_tickets <= u64::MAX,
    ensures
        parts_of(final(out)@) == parts_of(old(out)@) + ticket_section(*tk),
{
    let ghost start = parts_of(out@);
    push_span(out, chars_of("\n"), None);
    push_span(out, chars_of("🎟️  Tickets"), Some(Paint::Bold));
    let mut b = chars_of("\n");
    let rev = currency_exec(tk.total_revenue, "kr");
    push_text_row(&mut b, "Paid Tickets:", &decimal_exec(tk.paid_tickets as u64), "Total Revenue:", &rev);
    let comp: u64 = tk.sponsor_tickets as u64 + tk.speaker_tickets as u64 + tk.organizer_tickets as u64;
    let mut d = decimal_exec(comp);
    push_str(&mut d, " (claimed ");
    push_chars(&mut d, &decimal_exec(tk.free_tickets_claimed as u64));
    push_str(&mut d, ", rate ");
    push_str(&mut d, tk.free_ticket_claim_rate.as_str());
    push_str(&mut d, "%)");
    push_text_row(&mut b, "Total Tickets:", &decimal_exec(tk.total_tickets as u64), "Complimentary:", &d);
    push_span(out, b, None);
    assert(parts_of(out@) =~= start + ticket_section(*tk));
}

/// The variance as printed: ahead with a plus sign, or behind.
pub open spec fn variance_text(tp: TargetProgress) -> Seq<char> {
    if tp.variance_non_negative {
        "+"@ + tp.variance@ + "% ahead"@
    } else {
        tp.variance@ + "% behind"@
    }
}

/// The variance's paint: green ahead, red behind.
pub open spec fn variance_paint(tp: TargetProgress) -> Paint {
    if tp.variance_non_negative {
        Paint::Green
    } else {
        Paint::Red
    }
}

/// The target section; `painted` is the variance as printed with its
/// paint, which with tickets is padded together with its codes.
pub open spec fn target_section(tp: TargetProgress, tickets: Option<TicketSummary>, painted: Seq<char>) -> Seq<Part> {
    let title = (if tp.is_on_track {
        "✅"@
    } else {
        "⚠️"@
    }) + " Target Progress"@;
    let first = "\n"@ + "  "@ + pad_right("Current Target:"@, 24) + pad_right(
        tp.target_percentage@ + "%"@,
        6,
    ) + "  "@ + pad_right("Actual Progress:"@, 24) + tp.current_percentage@ + "%\n"@;
    let variance = variance_line(tp, tickets, painted);
    let milestone = milestone_line(tp);
    seq![("\n"@, None), (title, Some(Paint::Bold)), (first + variance + milestone, None)]
}

/// The variance line.
pub open spec fn variance_line(tp: TargetProgress, tickets: Option<TicketSummary>, painted: Seq<char>) -> Seq<char> {
    match tickets {
        Some(tk) => "  "@ + pad_right("Variance:"@, 24) + pad_right(painted, 30) + "  "@ + pad_right(
            "Capacity:"@,
            24,
        ) + decimal(tk.paid_tickets as nat) + "/"@ + decimal(tp.capacity as nat) + "\n"@,
        None => "  "@ + pad_right("Variance:"@, 24) + painted + "\n"@,
    }
}

/// The milestone line, when there is a next milestone.
pub open spec fn milestone_line(tp: TargetProgress) -> Seq<char> {
    match tp.next_milestone {
        Some(m) => "  🎯 Next Milestone: "@ + m.label@ + " in "@ + signed_decimal(m.days_away as int)
            + " days\n"@,
        None => seq![],
    }
}

fn variance_painted(tp: &TargetProgress) -> (r: String)
    ensures
        is_painted(variance_text(*tp), variance_paint(*tp), r@),
{
    let mut vt: Vec<char> = Vec::new();
    if tp.variance_non_negative {
        push_str(&mut vt, "+");
        push_str(&mut vt, tp.variance.as_str());
        push_str(&mut vt, "% ahead");
    } else {
        push_str(&mut vt, tp.variance.as_str());
        push_str(&mut vt, "% behind");
    }
    let vpaint = if tp.variance_non_negative {
        Paint::Green
    } else {
        Paint::Red
    };
    assert(vt@ =~= variance_text(*tp));
    paint(string_of(&vt).as_str(), vpaint)
}

fn push_variance_line(b: &mut Vec<char>, tp: &TargetProgress, tickets: Option<&TicketSummary>, pc: &Vec<char>)
    ensures
        final(b)@ == old(b)@ + variance_line(
            *tp,
            match tickets {
                Some(t) => Some(*t),
                None => None,
            },
            pc@,
        ),
{
    let ghost b0 = b@;
    push_str(b, "  ");
    push_padded(b, &chars_of("Variance:"), 24);
    match tickets {
        Some(tk) => {
            push_padded(b, pc, 30);
            push_str(b, "  ");
            push_padded(b, &chars_of("Capacity:"), 24);
            push_chars(b, &decimal_exec(tk.paid_tickets as u64));
            push_str(b, "/");
            push_chars(b, &decimal_exec(tp.capacity as u64));
            push_str(b, "\n");
            assert(b@ =~= b0 + variance_line(*tp, Some(*tk), pc@));
        },
        None => {
            push_chars(b, pc);
            push_str(b, "\n");
            assert(b@ =~= b0 + variance_line(*tp, None, pc@));
        },
    }
}

fn push_milestone(b: &mut Vec<char>, tp: &TargetProgress)
    ensures
        final(b)@ == old(b)@ + milestone_line(*tp),
{
    let ghost b0 = b@;
    match &tp.next_milestone {
        Some(m) => {
            push_str(b, "  🎯 Next Milestone: ");
            push_str(b, m.label.as_str());
            push_str(b, " in ");
            push_chars(b, &signed_decimal_exec(m.days_away));
            push_str(b, " days\n");
        },
        None => {},
    }
    assert(b@ =~= b0 + milestone_line(*tp));
}

fn push_target(out: &mut Vec<Span>, tp: &TargetProgress, tickets: Option<&TicketSummary>)
    ensures
        exists|painted: Seq<char>|
            is_painted(variance_text(*tp), variance_paint(*tp), painted) && parts_of(final(out)@)
                == parts_of(old(out)@) + target_section(
                *tp,
                match tickets {
                    Some(t) => Some(*t),
                    None => None,
                },
                painted,
            ),
{
    let ghost start = parts_of(out@);
    push_span(out, chars_of("\n"), None);
    let mut title: Vec<char> = if tp.is_on_track {
        chars_of("✅")
    } else {
        chars_of("⚠️")
    };
    push_str(&mut title, " Target Progress");
    push_span(out, title, Some(Paint::Bold));
    let mut b = chars_of("\n");
    push_str(&mut b, "  ");
    push_padded(&mut b, &chars_of("Current Target:"), 24);
    let mut target = chars_of(tp.target_percentage.as_str());
    push_str(&mut target, "%");
    push_padded(&mut b, &target, 6);
    push_str(&mut b, "  ");
    push_padded(&mut b, &chars_of("Actual Progress:"), 24);
    push_str(&mut b, tp.current_percentage.as_str());
    push_str(&mut b, "%\n");
    let ghost first = b@;
    let painted = variance_painted(tp);
    let pc = chars_of(painted.as_str());
    push_variance_line(&mut b, tp, tickets, &pc);
    push_milestone(&mut b, tp);
    let ghost tko = match tickets {
        Some(t) => Some(*t),
        None => None,
    };
    assert(b@ =~= first + variance_line(*tp, tko, painted@) + milestone_line(*tp));
    push_span(out, b, None);
    assert(parts_of(out@) =~= start + target_section(*tp, tko, painted@));
}

/// Each category entry as a line.
pub open spec fn ticket_lines(v: Seq<Seq<char>>) -> Seq<Seq<char>> {
    v.map_values(|t: Seq<char>| "  "@ + t + " tickets\n"@)
}

/// The lines of the category breakdown, largest count first.
pub open spec fn is_breakdown(tk: TicketSummary, lines: Seq<char>) -> bool {
    exists|perm: Seq<usize>|
        is_stable_sorted(count_keys(tk.category_breakdown@), perm, true) && lines == crate::text::concat(
            ticket_lines(#[trigger] listed(tk.category_breakdown@, perm)),
        )
}

/// The category breakdown section.
pub open spec fn breakdown_section(lines: Seq<char>) -> Seq<Part> {
    seq![("\n"@, None), ("Breakdown by Paid Ticket Category:"@, Some(Paint::Bold)), ("\n"@ + lines, None)]
}

fn push_breakdown(out: &mut Vec<Span>, tk: &TicketSummary)
    ensures
        exists|lines: Seq<char>|
            is_breakdown(*tk, lines) && parts_of(final(out)@) == parts_of(old(out)@)
                + breakdown_section(lines),
{
    let ghost start = parts_of(out@);
    push_span(out, chars_of("\n"), None);
    push_span(out, chars_of("Breakdown by Paid Ticket Category:"), Some(Paint::Bold));
    let (items, perm) = entries_by_count(&tk.category_breakdown, false);
    let ghost lv = ticket_lines(texts(items@));
    let mut b = chars_of("\n");
    let ghost b0 = b@;
    let mut i: usize = 0;
    assert(lv.take(0) =~= Seq::<Seq<char>>::empty());
    while i < items.len()
        invariant
            i <= items@.len(),
            lv == ticket_lines(texts(items@)),
            b@ == b0 + crate::text::concat(lv.take(i as int)),
        decreases items@.len() - i,
    {
        push_str(&mut b, "  ");
        push_str(&mut b, items[i].as_str());
        push_str(&mut b, " tickets\n");
        i = i + 1;
        assert(lv.take(i as int).drop_last() =~= lv.take(i - 1));
        assert(b@ =~= b0 + crate::text::concat(lv.take(i as int)));
    }
    assert(lv.take(i as int) =~= lv);
    push_span(out, b, None);
    let ghost lines = crate::text::concat(lv);
    assert(is_breakdown(*tk, lines));
    assert(parts_of(out@) =~= start + breakdown_section(lines));
}

/// The section errors, each in yellow.
pub open spec fn error_parts(es: Seq<SectionError>) -> Seq<Part>
    decreases es.len(),
{
    if es.len() == 0 {
        seq![]
    } else {
        error_parts(es.drop_last()) + seq![
            ("⚠ "@ + es.last().section@ + ": "@ + es.last().message@, Some(Paint::Yellow)),
            ("\n"@, None),
        ]
    }
}

/// The hints for agents at the end.
pub open spec fn hint_parts(summary: ConferenceStatusSummary) -> Seq<Part> {
    seq![("\n"@, None), ("💡 Next Steps for Agents:"@, Some(Paint::Dimmed)), ("\n"@, None)] + (
    match summary.proposals {
        Some(pr) => if pr.submitted > 0 {
            seq![
                ("• There are unreviewed proposals. Use `konf admin proposals list` to start reviewing."@, Some(Paint::Dimmed)),
                ("\n"@, None),
            ]
        } else {
            seq![]
        },
        None => seq![],
    }) + (match summary.sponsors {
        Some(sp) => if sp.active_deals > 0 {
            seq![
                ("• You have active sponsor deals. Use `konf admin sponsors list` to check progress."@, Some(Paint::Dimmed)),
                ("\n"@, None),
            ]
        } else {
            seq![]
        },
        None => seq![],
    }) + seq![
        ("• Need more context? Run `konf agents get` for conference rules and goals."@, Some(Paint::Dimmed)),
        ("\n"@, None),
    ]
}

fn push_hints(out: &mut Vec<Span>, summary: &ConferenceStatusSummary)
    ensures
        parts_of(final(out)@) == parts_of(old(out)@) + hint_parts(*summary),
{
    let ghost start = parts_of(out@);
    push_span(out, chars_of("\n"), None);
    push_span(out, chars_of("💡 Next Steps for Agents:"), Some(Paint::Dimmed));
    push_span(out, chars_of("\n"), None);
    let ghost s1 = parts_of(out@);
    let pr_hint = match &summary.proposals {
        Some(pr) => pr.submitted > 0,
        None => false,
    };
    if pr_hint {
        push_span(
            out,
            chars_of("• There are unreviewed proposals. Use `konf admin proposals list` to start reviewing."),
            Some(Paint::Dimmed),
        );
        push_span(out, chars_of("\n"), None);
    }
    let ghost s2 = parts_of(out@);
    let sp_hint = match &summary.sponsors {
        Some(sp) => sp.active_deals > 0,
        None => false,
    };
    if sp_hint {
        push_span(
            out,
            chars_of("• You have active sponsor deals. Use `konf admin sponsors list` to check progress."),
            Some(Paint::Dimmed),
        );
        push_span(out, chars_of("\n"), None);
    }
    push_span(
        out,
        chars_of("• Need more context? Run `konf agents get` for conference rules and goals."),
        Some(Paint::Dimmed),
    );
    push_span(out, chars_of("\n"), None);
    assert(parts_of(out@) =~= start + hint_parts(*summary));
}

/// The date part of a time stamp: what comes before the first `T`.
pub open spec fn date_part(s: Seq<char>) -> Seq<char>
    decreases s.len(),
{
    if s.len() == 0 {
        s
    } else if s[0] == 'T' {
        seq![]
    } else {
        seq![s[0]] + date_part(s.drop_first())
    }
}

fn date_part_exec(s: &str) -> (r: Vec<char>)
    ensures
        r@ == date_part(s@),
{
    let cs = chars_of(s);
    let mut out: Vec<char> = Vec::new();
    let mut i: usize = 0;
    assert(cs@.skip(0) =~= cs@);
    while i < cs.len()
        invariant
            cs@ == s@,
            i <= cs@.len(),
            out@ + date_part(cs@.skip(i as int)) == date_part(s@),
        decreases cs@.len() - i,
    {
        if cs[i] == 'T' {
            assert(date_part(cs@.skip(i as int)) =~= Seq::<char>::empty());
            assert(out@ + Seq::<char>::empty() =~= out@);
            return out;
        }
        assert(cs@.skip(i as int).drop_first() =~= cs@.skip(i + 1));
        let ghost before = out@;
        out.push(cs[i]);
        assert(before + (seq![cs@[i as int]] + date_part(cs@.skip(i + 1))) =~= out@ + date_part(
            cs@.skip(i + 1),
        ));
        i = i + 1;
    }
    assert(cs@.skip(i as int) =~= Seq::<char>::empty());
    assert(out@ + Seq::<char>::empty() =~= out@);
    out
}

/// The overview's head: title and date.
pub open spec fn head_parts(summary: ConferenceStatusSummary) -> Seq<Part> {
    seq![
        ("📊 Conference Status — "@ + summary.conference_title@, Some(Paint::Bold)),
        ("\n   Summary as of "@ + date_part(summary.last_updated@) + "\n"@, None),
    ]
}

/// The counts that a sum in the overview adds stay within range.
pub open spec fn sums_fit(summary: ConferenceStatusSummary) -> bool {
    &&& summary.sponsors matches Some(sp) ==> sp.closed_won_count + sp.closed_lost_count <= usize::MAX
    &&& summary.tickets matches Some(tk) ==> tk.sponsor_tickets + tk.speaker_tickets
        + tk.organizer_tickets <= u64::MAX
}

/// The whole overview, given the texts of the sponsor counts by name, the
/// painted variance and the category breakdown lines.
pub open spec fn status_parts(
    summary: ConferenceStatusSummary,
    maps: Seq<Seq<char>>,
    painted: Seq<char>,
    lines: Seq<char>,
) -> Seq<Part> {
    head_parts(summary) + (match summary.sponsors {
        Some(sp) => sponsor_section(sp, maps),
        None => seq![],
    }) + (match summary.proposals {
        Some(pr) => proposal_section(pr),
        None => seq![],
    }) + (match summary.tickets {
        Some(tk) => ticket_section(tk),
        None => seq![],
    }) + (match summary.target_progress {
        Some(tp) => target_section(tp, summary.tickets, painted),
        None => seq![],
    }) + (match summary.tickets {
        Some(tk) => if tk.category_breakdown@.len() > 1 {
            breakdown_section(lines)
        } else {
            seq![]
        },
        None => seq![],
    }) + (if summary.errors@.len() > 0 {
        seq![("\n"@, None)] + error_parts(summary.errors@)
    } else {
        seq![]
    }) + hint_parts(summary)
}

/// The texts inside the overview are what they must be.
pub open spec fn status_pieces_ok(
    summary: ConferenceStatusSummary,
    maps: Seq<Seq<char>>,
    painted: Seq<char>,
    lines: Seq<char>,
) -> bool {
    &&& summary.sponsors matches Some(sp) ==> sponsor_maps_ok(sp, maps)
    &&& summary.target_progress matches Some(tp) ==> is_painted(
        variance_text(tp),
        variance_paint(tp),
        painted,
    )
    &&& summary.tickets matches Some(tk) ==> (tk.category_breakdown@.len() > 1 ==> is_breakdown(
        tk,
        lines,
    ))
}

fn push_errors(out: &mut Vec<Span>, errors: &Vec<SectionError>)
    ensures
        parts_of(final(out)@) == parts_of(old(out)@) + (if errors@.len() > 0 {
            seq![("\n"@, None)] + error_parts(errors@)
        } else {
            seq![]
        }),
{
    let ghost start = parts_of(out@);
    if errors.len() > 0 {
        push_span(out, chars_of("\n"), None);
        let ghost s1 = parts_of(out@);
        let mut i: usize = 0;
        assert(errors@.take(0) =~= Seq::<SectionError>::empty());
        assert(parts_of(out@) =~= s1 + error_parts(errors@.take(0)));
        while i < errors.len()
            invariant
                i <= errors@.len(),
                parts_of(out@) == s1 + error_parts(errors@.take(i as int)),
            decreases errors@.len() - i,
        {
            let e = &errors[i];
            let mut t = chars_of("⚠ ");
            push_str(&mut t, e.section.as_str());
            push_str(&mut t, ": ");
            push_str(&mut t, e.message.as_str());
            push_span(out, t, Some(Paint::Yellow));
            push_span(out, chars_of("\n"), None);
            i = i + 1;
            assert(errors@.take(i as int).drop_last() =~= errors@.take(i - 1));
            assert(parts_of(out@) =~= s1 + error_parts(errors@.take(i as int)));
        }
        assert(errors@.take(i as int) =~= errors@);
    }
    assert(parts_of(out@) =~= start + (if errors@.len() > 0 {
        seq![("\n"@, None)] + error_parts(errors@)
    } else {
        seq![]
    }));
}

/// `t` ends with `e`.
pub open spec fn ends_with(t: Seq<char>, e: Seq<char>) -> bool {
    e.len() <= t.len() && t.subrange(t.len() - e.len(), t.len() as int) == e
}

/// The row of the ticket section that counts the complimentary tickets.
pub open spec fn complimentary_row_end(count: int, claimed: nat, rate: Seq<char>) -> Seq<char> {
    "  "@ + pad_right("Complimentary:"@, 24) + decimal(count as nat) + " (claimed "@ + decimal(
        claimed,
    ) + ", rate "@ + rate + "%)"@ + "\n"@
}

/// The ticket section's figures row ends with the complimentary row.
#[verifier::spinoff_prover]
#[verifier::rlimit(50)]
proof fn lemma_ticket_section_row(tk: TicketSummary)
    ensures
        ends_with(
            ticket_section(tk)[2].0,
            complimentary_row_end(
                tk.sponsor_tickets + tk.speaker_tickets + tk.organizer_tickets,
                tk.free_tickets_claimed as nat,
                tk.free_ticket_claim_rate@,
            ),
        ),
{
    let pre = "\n"@ + text_row(
        "Paid Tickets:"@,
        decimal(tk.paid_tickets as nat),
        "Total Revenue:"@,
        currency_text(tk.total_revenue, "kr"@),
    ) + "  "@ + pad_right("Total Tickets:"@, 24) + pad_right(decimal(tk.total_tickets as nat), 6);
    let row = complimentary_row_end(
        tk.sponsor_tickets + tk.speaker_tickets + tk.organizer_tickets,
        tk.free_tickets_claimed as nat,
        tk.free_ticket_claim_rate@,
    );
    assert(ticket_section(tk)[2].0 =~= pre + row);
    assert((pre + row).subrange(pre.len() as int, (pre + row).len() as int) =~= row);
}

/// Where the overview has a ticket section, one of its parts ends with the
/// complimentary row, whose count is every free ticket given out: those of
/// sponsors, speakers and organizers together.
#[verifier::spinoff_prover]
#[verifier::rlimit(50)]
pub proof fn lemma_complimentary_counts_all_free_tickets(
    summary: ConferenceStatusSummary,
    maps: Seq<Seq<char>>,
    painted: Seq<char>,
    lines: Seq<char>,
)
    ensures
        summary.tickets matches Some(tk) ==> exists|k: int|
            0 <= k < status_parts(summary, maps, painted, lines).len() && ends_with(
                #[trigger] status_parts(summary, maps, painted, lines)[k].0,
                complimentary_row_end(
                    tk.sponsor_tickets + tk.speaker_tickets + tk.organizer_tickets,
                    tk.free_tickets_claimed as nat,
                    tk.free_ticket_claim_rate@,
                ),
            ),
{
    if let Some(tk) = summary.tickets {
        let head = head_parts(summary);
        let sp = match summary.sponsors {
            Some(x) => sponsor_section(x, maps),
            None => seq![],
        };
        let pr = match summary.proposals {
            Some(x) => proposal_section(x),
            None => seq![],
        };
        let ts = ticket_section(tk);
        let tail = (match summary.target_progress {
            Some(tp) => target_section(tp, summary.tickets, painted),
            None => seq![],
        }) + (if tk.category_breakdown@.len() > 1 {
            breakdown_section(lines)
        } else {
            seq![]
        }) + (if summary.errors@.len() > 0 {
            seq![("\n"@, None)] + error_parts(summary.errors@)
        } else {
            seq![]
        }) + hint_parts(summary);
        let before = head + sp + pr;
        let all = status_parts(summary, maps, painted, lines);
        assert(all =~= before + ts + tail);
        let k: int = before.len() as int + 2;
        assert((before + ts + tail)[k] == ts[2]);
        lemma_ticket_section_row(tk);
        assert(0 <= k < all.len());
    }
}

/// The spans of the status overview.
#[verifier::rlimit(60)]
pub fn status_spans(summary: &ConferenceStatusSummary) -> (out: Vec<Span>)
    requires
        sums_fit(*summary),
    ensures
        exists|maps: Seq<Seq<char>>, painted: Seq<char>, lines: Seq<char>|
            status_pieces_ok(*summary, maps, painted, lines) && parts_of(out@) == status_parts(
                *summary,
                maps,
                painted,
                lines,
            ),
{
    let mut out: Vec<Span> = Vec::new();
    assert(parts_of(out@) =~= Seq::<Part>::empty());
    let mut t = chars_of("📊 Conference Status — ");
    push_str(&mut t, summary.conference_title.as_str());
    push_span(&mut out, t, Some(Paint::Bold));
    let mut d = chars_of("\n   Summary as of ");
    push_chars(&mut d, &date_part_exec(summary.last_updated.as_str()));
    push_str(&mut d, "\n");
    push_span(&mut out, d, None);
    let ghost s0 = parts_of(out@);
    let ghost mut maps: Seq<Seq<char>> = seq![seq![], seq![], seq![]];
    match &summary.sponsors {
        Some(sp) => {
            push_sponsors(&mut out, sp);
            proof {
                maps = choose|m: Seq<Seq<char>>|
                    sponsor_maps_ok(*sp, m) && parts_of(out@) == s0 + sponsor_section(*sp, m);
            }
        },
        None => {},
    }
    let ghost s1 = parts_of(out@);
    assert(s1 =~= s0 + (match summary.sponsors {
        Some(sp) => sponsor_section(sp, maps),
        None => seq![],
    }));
    match &summary.proposals {
        Some(pr) => push_proposals(&mut out, pr),
        None => {},
    }
    let ghost s2 = parts_of(out@);
    match &summary.tickets {
        Some(tk) => push_tickets(&mut out, tk),
        None => {},
    }
    let ghost s3 = parts_of(out@);
    let ghost mut painted: Seq<char> = seq![];
    match &summary.target_progress {
        Some(tp) => {
            let tko: Option<&TicketSummary> = match &summary.tickets {
                Some(tk) => Some(tk),
                None => None,
            };
            push_target(&mut out, tp, tko);
            proof {
                painted = choose|p: Seq<char>|
                    is_painted(variance_text(*tp), variance_paint(*tp), p) && parts_of(out@) == s3
                        + target_section(*tp, summary.tickets, p);
            }
        },
        None => {},
    }
    let ghost s4 = parts_of(out@);
    let ghost mut lines: Seq<char> = seq![];
    match &summary.tickets {
        Some(tk) => {
            if tk.category_breakdown.len() > 1 {
                push_breakdown(&mut out, tk);
                proof {
                    lines = choose|l: Seq<char>|
                        is_breakdown(*tk, l) && parts_of(out@) == s4 + breakdown_section(l);
                }
            }
        },
        None => {},
    }
    push_errors(&mut out, &summary.errors);
    push_hints(&mut out, summary);
    assert(status_pieces_ok(*summary, maps, painted, lines));
    assert(parts_of(out@) =~= status_parts(*summary, maps, painted, lines));
    out
}

} // verus!
