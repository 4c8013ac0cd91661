use vstd::prelude::*;

verus! {

/// The conference status overview.
#[derive(Debug, Clone, PartialEq)]
pub struct ConferenceStatusSummary {
    pub conference_title: String,
    pub last_updated: String,
    pub sponsors: Option<SponsorPipeline>,
    pub proposals: Option<ProposalSummary>,
    pub tickets: Option<TicketSummary>,
    pub target_progress: Option<TargetProgress>,
    pub errors: Vec<SectionError>,
}

/// The sponsor pipeline in figures.
#[derive(Debug, Clone, PartialEq)]
pub struct SponsorPipeline {
    pub total_sponsors: usize,
    pub active_deals: usize,
    pub closed_won_count: usize,
    pub closed_lost_count: usize,
    /// Whether the total contract value is above zero.
    pub has_contract_value: bool,
    /// The total contract value in whole units (truncated).
    pub total_contract_value: i64,
    pub contract_currency: String,
    /// The share of closed deals that were won, in percent rounded to a whole
    /// number, as printed (read only when some deal is closed).
    pub win_rate_text: String,
    pub by_status: Vec<(String, usize)>,
    pub by_contract_status: Vec<(String, usize)>,
    pub by_invoice_status: Vec<(String, usize)>,
}

/// Proposals in figures.
#[derive(Debug, Clone, PartialEq)]
pub struct ProposalSummary {
    pub total: usize,
    pub submitted: usize,
    pub accepted: usize,
    pub confirmed: usize,
    pub rejected: usize,
    pub withdrawn: usize,
    pub by_status: Vec<(String, usize)>,
}

/// Tickets in figures.
#[derive(Debug, Clone, PartialEq)]
pub struct TicketSummary {
    pub paid_tickets: usize,
    /// The total revenue in whole units (truncated).
    pub total_revenue: i64,
    pub total_tickets: usize,
    pub sponsor_tickets: usize,
    pub speaker_tickets: usize,
    pub organizer_tickets: usize,
    pub free_tickets_claimed: usize,
    /// The free-ticket claim rate in percent, to one decimal, as printed.
    pub free_ticket_claim_rate: String,
    pub category_breakdown: Vec<(String, usize)>,
}

/// Ticket sales against the target.
#[derive(Debug, Clone, PartialEq)]
pub struct TargetProgress {
    /// The actual progress in percent, to one decimal, as printed.
    pub current_percentage: String,
    /// The target in percent, to one decimal, as printed.
    pub target_percentage: String,
    /// The variance in percent, to one decimal, as printed (with its sign).
    pub variance: String,
    /// Whether the variance is zero or more.
    pub variance_non_negative: bool,
    pub is_on_track: bool,
    pub capacity: usize,
    pub next_milestone: Option<Milestone>,
}

/// The next sales milestone.
#[derive(Debug, Clone, PartialEq)]
pub struct Milestone {
    pub label: String,
    pub days_away: i64,
}

/// A section of the overview that could not be computed.
#[derive(Debug, Clone, PartialEq)]
pub struct SectionError {
    pub section: String,
    pub message: String,
}

} // verus!
