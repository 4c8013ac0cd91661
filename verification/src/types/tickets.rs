//! The ticket summary, mirrored field for field. Every figure is the
//! server's; where it does not know one, these types say so rather than hold a
//! zero.
use vstd::prelude::*;

use crate::text::{decimal, u64_to_string};

verus! {

/// The admission that a count is not known: on the wire, the string
/// `"unknown"` and nothing else.
#[derive(Debug, Clone, Copy, PartialEq, Eq, Structural)]
pub enum UnknownTag {
    Unknown,
}

/// A count, or the admission that there is none.
#[derive(Debug, Clone, Copy, PartialEq, Eq, Structural)]
pub enum Count {
    Known(u64),
    Unknown(UnknownTag),
}

impl Count {
    /// What a human surface prints: the number, or `?` (never `0`) when the
    /// count is unknown.
    pub open spec fn spec_label(self) -> Seq<char> {
        match self {
            Count::Known(n) => decimal(n as nat),
            Count::Unknown(_) => "?"@,
        }
    }

    /// Whether the count is unknown.
    pub fn is_unknown(self) -> (b: bool)
        ensures
            b == (self is Unknown),
    {
        match self {
            Count::Known(_) => false,
            Count::Unknown(_) => true,
        }
    }

    /// What a human surface prints: the number, or `?` when unknown.
    pub fn label(self) -> (s: String)
        ensures
            s@ == self.spec_label(),
    {
        match self {
            Count::Known(n) => u64_to_string(n),
            Count::Unknown(_) => String::from_str("?"),
        }
    }
}

/// The weakest basis any ticket's role rested on.
#[derive(Debug, Clone, Copy, PartialEq, Eq, Structural)]
pub enum RoleBasis {
    /// Every ticket type's role was declared by a human.
    Declared,
    /// At least one role is a suggestion that has not been applied.
    Proposed,
    /// At least one type has neither a declaration nor a proposal.
    Unknown,
}

/// The states the ticket summary can answer with.
#[derive(Debug, Clone, PartialEq)]
pub enum TicketStats {
    Ready(Box<TicketStatsReady>),
    Unconfigured(TicketingAccessState),
    Unavailable(TicketingAccessState),
    Disabled(TicketingAccessState),
    /// A provider read that failed.
    Error { message: String },
}

/// Which provider the figures would have come from.
#[derive(Debug, Clone, PartialEq)]
pub struct TicketingAccessState {
    pub provider_type: String,
    pub provider_label: String,
}

/// The figures of a configured, reachable provider.
#[derive(Debug, Clone, PartialEq)]
pub struct TicketStatsReady {
    pub provider_type: String,
    pub provider_label: String,
    pub amounts_include_vat: bool,
    pub revenue_apportioned: bool,
    /// Sellable seats, or 0 when never configured.
    pub capacity: u64,
    pub ticket_counts: TicketCounts,
    pub participants: ParticipantTally,
    pub seats_used: u64,
    pub analysis: Analyses,
    pub statistics: TicketStatistics,
    pub category_stats: Vec<CategoryStat>,
    pub free_ticket_allocation: FreeTicketAllocation,
    /// Tier name and its sponsor seats.
    pub sponsor_tickets_by_tier: Vec<(String, SponsorTicketData)>,
    pub sponsor_allocation_total: u64,
}

/// Tickets by kind.
#[derive(Debug, Clone, PartialEq)]
pub struct TicketCounts {
    pub all: u64,
    pub paid: u64,
    pub free: u64,
}

/// Who the tickets seat.
#[derive(Debug, Clone, PartialEq)]
pub struct ParticipantTally {
    pub participants: u64,
    pub add_ons_with_seat: u64,
    pub add_ons_without_seat: u64,
    pub repeat_tickets: u64,
    pub role_basis: RoleBasis,
}

/// The sales analyses.
#[derive(Debug, Clone, PartialEq)]
pub struct Analyses {
    /// Over the paid tickets.
    pub paid: AnalysisOutcome,
    /// Over every ticket.
    pub all: AnalysisOutcome,
}

/// An analysis, or why there is none.
#[derive(Debug, Clone, PartialEq)]
pub enum AnalysisOutcome {
    Analysed { analysis: TicketAnalysisResult },
    /// No tickets to analyse: a real zero.
    Empty,
    /// The analysis failed: the numbers are not known.
    Unavailable { error: String },
}

/// A sales analysis.
#[derive(Debug, Clone, PartialEq)]
pub struct TicketAnalysisResult {
    pub statistics: TicketStatistics,
    pub performance: PerformanceMetrics,
    pub capacity: u64,
}

/// Sales against the target.
#[derive(Debug, Clone, PartialEq)]
pub struct PerformanceMetrics {
    /// The actual progress in percent, to one decimal, as printed.
    pub current_percentage: String,
    /// The target in percent, to one decimal, as printed.
    pub target_percentage: String,
    /// The variance in percent, to one decimal, as printed (with its sign).
    pub variance: String,
    /// Whether the variance is zero or more.
    pub variance_non_negative: bool,
    pub is_on_track: bool,
    pub next_milestone: Option<NextMilestone>,
}

/// The next sales milestone.
#[derive(Debug, Clone, PartialEq)]
pub struct NextMilestone {
    pub date: String,
    pub label: String,
    pub days_away: i64,
}

/// Revenue figures.
#[derive(Debug, Clone, PartialEq)]
pub struct TicketStatistics {
    pub total_paid_tickets: u64,
    /// In whole units (truncated).
    pub total_revenue: i64,
    pub total_orders: u64,
    /// In whole units (truncated).
    pub average_ticket_price: i64,
    pub category_breakdown: Vec<(String, u64)>,
    pub sponsor_tickets: u64,
    pub speaker_tickets: u64,
}

/// Paid tickets of one category.
#[derive(Debug, Clone, PartialEq)]
pub struct CategoryStat {
    pub category: String,
    pub count: u64,
    pub orders: u64,
    /// In whole units (truncated).
    pub revenue: i64,
    /// The share of paid tickets in percent, to one decimal, as printed.
    pub percentage: String,
}

/// Sponsor seats of one tier.
#[derive(Debug, Clone, PartialEq)]
pub struct SponsorTicketData {
    pub sponsors: u64,
    pub tickets: u64,
    pub tickets_per_sponsor: u64,
}

/// Complimentary tickets by category.
#[derive(Debug, Clone, PartialEq)]
pub struct FreeTicketAllocation {
    pub sponsors: FreeAllocationCategory,
    pub speakers: FreeAllocationCategory,
    pub organizers: FreeAllocationCategory,
    pub total_allocated: Count,
    /// Claims over the categories `claimed_covers` names: a partial total.
    pub total_claimed: Count,
    pub claimed_allocated: Count,
    pub claimed_covers: Vec<String>,
}

/// Complimentary tickets of one category.
#[derive(Debug, Clone, PartialEq)]
pub struct FreeAllocationCategory {
    pub allocated: Count,
    /// Seats taken; not clamped to `allocated`, never zero-filled.
    pub claimed: Count,
    /// The count came from the provider's own counter.
    pub from_provider: bool,
    /// Where the number came from, or why there is none.
    pub status: String,
}

} // verus!
