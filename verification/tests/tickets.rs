use konfctl::display::tickets::ticket_stats_spans;
use konfctl::style::render;
use konfctl::types::{
    AnalysisOutcome, Analyses, CategoryStat, Count, FreeAllocationCategory, FreeTicketAllocation,
    NextMilestone, ParticipantTally, PerformanceMetrics, RoleBasis, SponsorTicketData,
    TicketAnalysisResult, TicketCounts, TicketStatistics, TicketStats, TicketStatsReady,
    TicketingAccessState, UnknownTag,
};

fn statistics() -> TicketStatistics {
    TicketStatistics {
        total_paid_tickets: 96,
        total_revenue: 240_000,
        total_orders: 80,
        average_ticket_price: 2500,
        category_breakdown: vec![("Early Bird".to_string(), 96)],
        sponsor_tickets: 0,
        speaker_tickets: 0,
    }
}

fn category(allocated: u64, claimed: Count, status: &str) -> FreeAllocationCategory {
    FreeAllocationCategory {
        allocated: Count::Known(allocated),
        claimed,
        from_provider: false,
        status: status.to_string(),
    }
}

fn ready(role_basis: RoleBasis) -> TicketStatsReady {
    TicketStatsReady {
        provider_type: "checkin".to_string(),
        provider_label: "Checkin".to_string(),
        amounts_include_vat: false,
        revenue_apportioned: true,
        capacity: 400,
        ticket_counts: TicketCounts {
            all: 120,
            paid: 96,
            free: 24,
        },
        participants: ParticipantTally {
            participants: 111,
            add_ons_with_seat: 6,
            add_ons_without_seat: 1,
            repeat_tickets: 2,
            role_basis,
        },
        seats_used: 113,
        analysis: Analyses {
            paid: AnalysisOutcome::Analysed {
                analysis: TicketAnalysisResult {
                    statistics: statistics(),
                    performance: PerformanceMetrics {
                        current_percentage: "24.0".to_string(),
                        target_percentage: "30.0".to_string(),
                        variance: "-6.0".to_string(),
                        variance_non_negative: false,
                        is_on_track: false,
                        next_milestone: Some(NextMilestone {
                            date: "2026-04-01".to_string(),
                            label: "Early Bird Close".to_string(),
                            days_away: 12,
                        }),
                    },
                    capacity: 400,
                },
            },
            all: AnalysisOutcome::Empty,
        },
        statistics: statistics(),
        category_stats: vec![CategoryStat {
            category: "Early Bird".to_string(),
            count: 96,
            orders: 80,
            revenue: 240_000,
            percentage: "100.0".to_string(),
        }],
        free_ticket_allocation: FreeTicketAllocation {
            sponsors: category(40, Count::Known(12), "Redemptions of 100%-off sponsor codes."),
            speakers: category(
                30,
                Count::Known(17),
                "13 invitations unclaimed · 0 speakers never invited.",
            ),
            organizers: category(
                9,
                Count::Unknown(UnknownTag::Unknown),
                "Organizer comps cannot be told apart from any other free ticket.",
            ),
            total_allocated: Count::Known(79),
            total_claimed: Count::Known(29),
            claimed_allocated: Count::Known(70),
            claimed_covers: vec!["sponsors".to_string(), "speakers".to_string()],
        },
        sponsor_tickets_by_tier: vec![(
            "Gold".to_string(),
            SponsorTicketData {
                sponsors: 4,
                tickets: 24,
                tickets_per_sponsor: 6,
            },
        )],
        sponsor_allocation_total: 40,
    }
}

fn render_stats(stats: &TicketStats) -> String {
    render(&ticket_stats_spans(stats))
}

fn render_ready(r: TicketStatsReady) -> String {
    render_stats(&TicketStats::Ready(Box::new(r)))
}

#[test]
fn unknown_claim_never_renders_as_zero() {
    let out = render_ready(ready(RoleBasis::Declared));
    let organizers = out
        .lines()
        .find(|l| l.contains("Organizers:"))
        .expect("organizer row");

    assert!(organizers.contains('?'), "got: {organizers}");
    assert!(!organizers.contains("0 / 9"), "got: {organizers}");
    assert!(out.contains("cannot be told apart"));
    assert!(out.contains("(sponsors, speakers only)"));
}

#[test]
fn proposed_basis_is_stated() {
    let out = render_ready(ready(RoleBasis::Proposed));
    assert!(out.contains("Assumes suggested ticket type roles"));

    let unknown = render_ready(ready(RoleBasis::Unknown));
    assert!(unknown.contains("Assumes ticket types with no role"));

    let declared = render_ready(ready(RoleBasis::Declared));
    assert!(!declared.contains("Assumes"));
}

#[test]
fn vat_and_apportioning_are_stated() {
    let out = render_ready(ready(RoleBasis::Declared));
    assert!(out.contains("Amounts exclude VAT"));
    assert!(out.contains("apportioned"));
}

#[test]
fn error_state_renders_as_failure() {
    let out = render_stats(&TicketStats::Error {
        message: "Unable to fetch tickets: 502".to_string(),
    });
    assert!(out.contains("unavailable"));
    assert!(out.contains("502"));
    assert!(!out.contains("0 / 0"));
}

#[test]
fn non_ready_states_name_the_provider() {
    let access = || TicketingAccessState {
        provider_type: "tito".to_string(),
        provider_label: "Tito".to_string(),
    };
    for (stats, needle) in [
        (TicketStats::Unconfigured(access()), "not configured"),
        (TicketStats::Unavailable(access()), "unavailable"),
        (TicketStats::Disabled(access()), "disabled"),
    ] {
        let out = render_stats(&stats);
        assert!(out.contains("Tito"), "{needle}: {out}");
        assert!(out.contains(needle), "{needle}: {out}");
    }
}

#[test]
fn failed_analysis_is_not_zero_progress() {
    let mut r = ready(RoleBasis::Declared);
    r.analysis.paid = AnalysisOutcome::Unavailable {
        error: "processor blew up".to_string(),
    };
    let out = render_ready(r);

    assert!(out.contains("progress unknown"));
    assert!(!out.contains("Actual Progress"));
    assert!(!out.contains("Variance"));
}

#[test]
fn empty_analysis_says_no_sales_yet() {
    let mut r = ready(RoleBasis::Declared);
    r.analysis.paid = AnalysisOutcome::Empty;
    let out = render_ready(r);

    assert!(out.contains("No tickets sold yet"));
    assert!(!out.contains("progress unknown"));
}

#[test]
fn ready_summary_shows_counts_money_and_tiers() {
    let out = render_ready(ready(RoleBasis::Declared));
    assert!(out.contains("240\u{a0}000"), "{out}");
    assert!(out.contains("Gold: 24 seats · 4 sponsors · 6 per sponsor"), "{out}");
    assert!(out.contains("17 / 30 claimed"), "{out}");
    assert!(out.contains("Early Bird Close"), "{out}");
}

#[test]
fn tiers_are_listed_by_seats_descending_and_stably() {
    let mut r = ready(RoleBasis::Declared);
    let tier = |tickets: u64| SponsorTicketData {
        sponsors: 1,
        tickets,
        tickets_per_sponsor: tickets,
    };
    r.sponsor_tickets_by_tier = vec![
        ("Bronze".to_string(), tier(2)),
        ("Gold".to_string(), tier(10)),
        ("Silver".to_string(), tier(2)),
    ];
    let out = render_ready(r);
    let gold = out.find("Gold:").unwrap();
    let bronze = out.find("Bronze:").unwrap();
    let silver = out.find("Silver:").unwrap();
    assert!(gold < bronze && bronze < silver, "{out}");
}
