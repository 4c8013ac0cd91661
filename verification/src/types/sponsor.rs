use vstd::prelude::*;

use crate::text::str_eq;
use crate::types::speaker::SpeakerRef;

verus! {

/// The CRM view to list sponsors in.
#[derive(Debug, Clone, Copy, PartialEq, Eq, Structural)]
pub enum SponsorView {
    Pipeline,
    Invoice,
    Contract,
}

impl Default for SponsorView {
    fn default() -> (v: Self)
        ensures
            v == SponsorView::Pipeline,
    {
        SponsorView::Pipeline
    }
}

/// The pipeline stage of a sponsor.
#[derive(Debug, Clone, Copy, PartialEq, Eq, Structural)]
pub enum SponsorStatus {
    Prospect,
    Contacted,
    Negotiating,
    ClosedWon,
    ClosedLost,
    /// Any stage this client does not know yet.
    Unknown,
}

impl SponsorStatus {
    /// The kebab-case name, used on the wire and when printed.
    pub open spec fn spec_name(self) -> Seq<char> {
        match self {
            SponsorStatus::Prospect => "prospect"@,
            SponsorStatus::Contacted => "contacted"@,
            SponsorStatus::Negotiating => "negotiating"@,
            SponsorStatus::ClosedWon => "closed-won"@,
            SponsorStatus::ClosedLost => "closed-lost"@,
            SponsorStatus::Unknown => "unknown"@,
        }
    }

    /// The kebab-case name, used on the wire and when printed.
    pub fn name(self) -> (s: &'static str)
        ensures
            s@ == self.spec_name(),
    {
        match self {
            SponsorStatus::Prospect => "prospect",
            SponsorStatus::Contacted => "contacted",
            SponsorStatus::Negotiating => "negotiating",
            SponsorStatus::ClosedWon => "closed-won",
            SponsorStatus::ClosedLost => "closed-lost",
            SponsorStatus::Unknown => "unknown",
        }
    }

    /// How the stage is printed.
    pub fn to_string(&self) -> (s: String)
        ensures
            s@ == self.spec_name(),
    {
        String::from_str(self.name())
    }

    /// The stage a wire name stands for; an unknown name gives `Unknown`.
    pub fn from_wire(s: &str) -> (st: Self)
        ensures
            st != SponsorStatus::Unknown ==> st.spec_name() == s@,
            st == SponsorStatus::Unknown ==> forall|k: SponsorStatus|
                k != SponsorStatus::Unknown ==> k.spec_name() != s@,
    {
        if str_eq(s, "prospect") {
            SponsorStatus::Prospect
        } else if str_eq(s, "contacted") {
            SponsorStatus::Contacted
        } else if str_eq(s, "negotiating") {
            SponsorStatus::Negotiating
        } else if str_eq(s, "closed-won") {
            SponsorStatus::ClosedWon
        } else if str_eq(s, "closed-lost") {
            SponsorStatus::ClosedLost
        } else {
            SponsorStatus::Unknown
        }
    }
}

/// The kind of an entry in a sponsor's history.
#[derive(Debug, Clone, Copy, PartialEq, Eq, Structural)]
pub enum ActivityType {
    Note,
    Call,
    Meeting,
    Email,
    StageChange,
    /// Any kind this client does not know yet.
    Unknown,
}

impl Default for ActivityType {
    fn default() -> (a: Self)
        ensures
            a == ActivityType::Unknown,
    {
        ActivityType::Unknown
    }
}

impl ActivityType {
    /// The name as printed.
    pub open spec fn spec_name(self) -> Seq<char> {
        match self {
            ActivityType::Note => "note"@,
            ActivityType::Call => "call"@,
            ActivityType::Meeting => "meeting"@,
            ActivityType::Email => "email"@,
            ActivityType::StageChange => "stage-change"@,
            ActivityType::Unknown => "unknown"@,
        }
    }

    /// The camel-case wire name.
    pub open spec fn spec_wire(self) -> Seq<char> {
        match self {
            ActivityType::Note => "note"@,
            ActivityType::Call => "call"@,
            ActivityType::Meeting => "meeting"@,
            ActivityType::Email => "email"@,
            ActivityType::StageChange => "stageChange"@,
            ActivityType::Unknown => "unknown"@,
        }
    }

    /// The name as printed.
    pub fn name(self) -> (s: &'static str)
        ensures
            s@ == self.spec_name(),
    {
        match self {
            ActivityType::Note => "note",
            ActivityType::Call => "call",
            ActivityType::Meeting => "meeting",
            ActivityType::Email => "email",
            ActivityType::StageChange => "stage-change",
            ActivityType::Unknown => "unknown",
        }
    }

    /// How the kind is printed.
    pub fn to_string(&self) -> (s: String)
        ensures
            s@ == self.spec_name(),
    {
        String::from_str(self.name())
    }

    /// The kind a wire name stands for; an unknown name gives `Unknown`.
    pub fn from_wire(s: &str) -> (a: Self)
        ensures
            a != ActivityType::Unknown ==> a.spec_wire() == s@,
            a == ActivityType::Unknown ==> forall|k: ActivityType|
                k != ActivityType::Unknown ==> k.spec_wire() != s@,
    {
        if str_eq(s, "note") {
            ActivityType::Note
        } else if str_eq(s, "call") {
            ActivityType::Call
        } else if str_eq(s, "meeting") {
            ActivityType::Meeting
        } else if str_eq(s, "email") {
            ActivityType::Email
        } else if str_eq(s, "stageChange") {
            ActivityType::StageChange
        } else {
            ActivityType::Unknown
        }
    }
}

/// An entry in a sponsor's history.
#[derive(Debug, Clone, PartialEq)]
pub struct SponsorActivity {
    pub id: String,
    pub activity_type: ActivityType,
    pub description: String,
    pub created_at: String,
    pub created_by: Option<SpeakerRef>,
}

/// What the sponsor list can be sorted by.
#[derive(Debug, Clone, Copy, PartialEq, Eq, Structural)]
pub enum SponsorSortBy {
    LastActivity,
    Value,
    Stale,
    Name,
    CreatedAt,
    FollowUp,
}

impl SponsorSortBy {
    /// The variant name, as `{:?}` prints it.
    pub open spec fn spec_debug_name(self) -> Seq<char> {
        match self {
            SponsorSortBy::LastActivity => "LastActivity"@,
            SponsorSortBy::Value => "Value"@,
            SponsorSortBy::Stale => "Stale"@,
            SponsorSortBy::Name => "Name"@,
            SponsorSortBy::CreatedAt => "CreatedAt"@,
            SponsorSortBy::FollowUp => "FollowUp"@,
        }
    }

    /// The variant name, as `{:?}` prints it.
    pub fn debug_name(self) -> (s: &'static str)
        ensures
            s@ == self.spec_debug_name(),
    {
        match self {
            SponsorSortBy::LastActivity => "LastActivity",
            SponsorSortBy::Value => "Value",
            SponsorSortBy::Stale => "Stale",
            SponsorSortBy::Name => "Name",
            SponsorSortBy::CreatedAt => "CreatedAt",
            SponsorSortBy::FollowUp => "FollowUp",
        }
    }
}

/// A sponsor in this conference's CRM.
#[derive(Debug, Clone, PartialEq)]
pub struct SponsorForConference {
    pub id: String,
    pub status: SponsorStatus,
    pub contract_status: Option<String>,
    pub invoice_status: Option<String>,
    pub sponsor: Option<SponsorRef>,
    pub tier: Option<TierRef>,
    pub assigned_to: Option<SpeakerRef>,
    pub contact_persons: Vec<ContactPerson>,
    pub billing: Option<Billing>,
    /// The contract value as it prints.
    pub contract_value: Option<String>,
    pub contract_currency: Option<String>,
    pub notes: Option<String>,
    pub tags: Vec<String>,
    pub contract_signed_at: Option<String>,
    pub invoice_sent_at: Option<String>,
    pub invoice_paid_at: Option<String>,
    pub activities: Vec<SponsorActivity>,
    pub last_activity: Option<SponsorActivitySummary>,
    pub activity_count: Option<u32>,
    pub next_follow_up_at: Option<String>,
    pub outreach_count: Option<u32>,
    pub contact_initiated_at: Option<String>,
}

/// The latest entry of a sponsor's history.
#[derive(Debug, Clone, PartialEq)]
pub struct SponsorActivitySummary {
    pub kind: ActivityType,
    pub description: String,
    pub created_at: String,
    pub created_by: Option<SpeakerRef>,
}

/// The sponsoring organisation.
#[derive(Debug, Clone, PartialEq)]
pub struct SponsorRef {
    pub id: String,
    pub name: String,
    pub website: Option<String>,
    pub linkedin_url: Option<String>,
}

/// A sponsorship tier.
#[derive(Debug, Clone, PartialEq)]
pub struct TierRef {
    pub id: String,
    pub title: String,
}

/// A contact at a sponsor.
#[derive(Debug, Clone, PartialEq)]
pub struct ContactPerson {
    pub name: String,
    pub email: Option<String>,
    pub phone: Option<String>,
    pub role: Option<String>,
    pub is_primary: Option<bool>,
    pub linkedin_url: Option<String>,
}

/// Where invoices go.
#[derive(Debug, Clone, PartialEq)]
pub struct Billing {
    pub email: Option<String>,
    pub reference: Option<String>,
}

} // verus!
