//! What the commands print: detail views, rows and summaries.
pub mod proposal;
pub mod sponsor;
pub mod status;
pub mod tickets;
