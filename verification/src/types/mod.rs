//! The data the platform's API answers with, as plain values: every field
//! that some rendering or decision of this crate reads.
pub mod agent_config;
pub mod email_template;
pub mod message;
pub mod proposal;
pub mod schedule;
pub mod speaker;
pub mod sponsor;
pub mod status;
pub mod tickets;

pub use agent_config::AgentConfig;
pub use email_template::{
    EmailRecipient, SendEmailResponse, SponsorEmailTemplate, TemplateCategory, TemplateLanguage,
    TemplateListResponse, TemplateSlug,
};
pub use message::{
    ConversationCounterpart, ConversationDetail, ConversationLastMessage, ConversationMessage,
    ConversationParticipant, ConversationPreference, ConversationRow, GetConversationResult,
};
pub use proposal::{
    portable_text_to_plain, PortableBlock, Proposal, ProposalFormat, ProposalSortBy,
    ProposalStatus, Review, ReviewComment, ReviewScore, ReviewStatus, Reviewer, Score, SortOrder,
    Topic,
};
pub use schedule::{Schedule, ScheduleStatus};
pub use speaker::{Speaker, SpeakerBio, SpeakerCreateInput, SpeakerFlag, SpeakerRef, SpeakerSummary};
pub use sponsor::{
    ActivityType, Billing, ContactPerson, SponsorActivity, SponsorActivitySummary,
    SponsorForConference, SponsorRef, SponsorSortBy, SponsorStatus, SponsorView, TierRef,
};
pub use status::{
    ConferenceStatusSummary, Milestone, ProposalSummary, SectionError, SponsorPipeline,
    TargetProgress, TicketSummary,
};
pub use tickets::{
    AnalysisOutcome, Analyses, CategoryStat, Count, FreeAllocationCategory, FreeTicketAllocation,
    NextMilestone, ParticipantTally, PerformanceMetrics, RoleBasis, SponsorTicketData,
    TicketAnalysisResult, TicketCounts, TicketStatistics, TicketStats, TicketStatsReady,
    TicketingAccessState, UnknownTag,
};
