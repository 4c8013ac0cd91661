use vstd::prelude::*;

verus! {

/// Where a schedule stands.
#[derive(Debug, Clone, Copy, PartialEq, Eq, Structural)]
pub enum ScheduleStatus {
    Draft,
    Official,
    Archived,
}

impl ScheduleStatus {
    /// The wire name, which is also how it is printed.
    pub open spec fn spec_name(self) -> Seq<char> {
        match self {
            ScheduleStatus::Draft => "draft"@,
            ScheduleStatus::Official => "official"@,
            ScheduleStatus::Archived => "archived"@,
        }
    }

    /// The wire name, which is also how it is printed.
    pub fn name(self) -> (s: &'static str)
        ensures
            s@ == self.spec_name(),
    {
        match self {
            ScheduleStatus::Draft => "draft",
            ScheduleStatus::Official => "official",
            ScheduleStatus::Archived => "archived",
        }
    }
}

/// A schedule, as far as it is shown.
#[derive(Debug, Clone, PartialEq)]
pub struct Schedule {
    pub id: String,
    pub rev: Option<String>,
    pub date: String,
    pub status: Option<ScheduleStatus>,
    pub version: Option<i32>,
    /// How many tracks it has, when it lists them.
    pub track_count: Option<usize>,
}

} // verus!
